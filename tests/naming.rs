use dis_gateway::naming::format_name;

fn name(s: &str, uid: usize) -> String {
    let chars: Vec<char> = s.chars().collect();
    format_name(&chars, uid).into_iter().collect()
}

#[test]
fn identifiers_are_sanitized() {
    assert_eq!(name("Entity State", 4), "EntityState");
    assert_eq!(name("Mil-Std 188/113 C.V.S.D, Alt's #2", 9), "MilStd188113CVSDAlts2");
    assert_eq!(name("Korea (Democratic People's Republic of)", 29), "Korea_DemocraticPeoplesRepublicof_");
    assert_eq!(name("", 1), "");
}

#[test]
fn identifiers_starting_with_a_digit_get_the_uid() {
    assert_eq!(name("8-bit mu-law", 271), "_8bitmulaw_271");
    assert_eq!(name(" 16 bit", 0), "_16bit_0");
    assert_eq!(name("1", 1234567), "_1_1234567");
}
