use vasko::text::{decimal, fill_placeholder, join_human_readable};

fn strings(items: &[&str]) -> Vec<String> {
    items.iter().map(|s| s.to_string()).collect()
}

#[test]
fn join_human_readable_empty() {
    assert_eq!(join_human_readable(&Vec::new()), "");
}

#[test]
fn join_human_readable_one() {
    assert_eq!(join_human_readable(&strings(&["<@A>"])), "<@A>");
}

#[test]
fn join_human_readable_two() {
    assert_eq!(join_human_readable(&strings(&["<@A>", "<@B>"])), "<@A> og <@B>");
}

#[test]
fn join_human_readable_many() {
    assert_eq!(
        join_human_readable(&strings(&["a", "b", "c", "d"])),
        "a, b, c og d"
    );
}

#[test]
fn join_human_readable_keeps_unicode() {
    assert_eq!(join_human_readable(&strings(&["Ærlig", "Øyvind"])), "Ærlig og Øyvind");
}

#[test]
fn fill_placeholder_replaces_every_occurrence() {
    assert_eq!(fill_placeholder("%s, husk %s!", "Kari"), "Kari, husk Kari!");
}

#[test]
fn fill_placeholder_without_placeholder_is_unchanged() {
    assert_eq!(fill_placeholder("Vask badet", "Kari"), "Vask badet");
}

#[test]
fn fill_placeholder_matches_std_replace() {
    for template in ["%%s", "%s%s", "%", "s%", "%ss", "", "100% sikker på %s"] {
        assert_eq!(fill_placeholder(template, "X"), template.replace("%s", "X"));
    }
}

#[test]
fn decimal_writes_numbers() {
    assert_eq!(decimal(0), "0");
    assert_eq!(decimal(20), "20");
    assert_eq!(decimal(4294967295), "4294967295");
}
