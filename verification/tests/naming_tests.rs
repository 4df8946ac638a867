use nearby_transfer::naming::unique_name;

fn n(s: &str) -> Vec<u8> {
    s.as_bytes().to_vec()
}

#[test]
fn a_free_name_is_kept() {
    let existing = vec![n("b.txt")];
    assert_eq!(unique_name(&n("a.txt"), &existing), n("a.txt"));
    assert_eq!(unique_name(&n("a.txt"), &Vec::new()), n("a.txt"));
}

#[test]
fn a_collision_appends_the_counter_before_the_extension() {
    let existing = vec![n("a.txt")];
    assert_eq!(unique_name(&n("a.txt"), &existing), n("a_1.txt"));
    let existing = vec![n("a.txt"), n("a_1.txt")];
    assert_eq!(unique_name(&n("a.txt"), &existing), n("a_2.txt"));
    let existing = vec![n("a.txt"), n("a_1.txt"), n("a_2.txt")];
    assert_eq!(unique_name(&n("a.txt"), &existing), n("a_3.txt"));
}

#[test]
fn a_name_without_extension_gets_a_plain_suffix() {
    let existing = vec![n("notes")];
    assert_eq!(unique_name(&n("notes"), &existing), n("notes_1"));
}

#[test]
fn a_dot_file_counts_as_having_no_extension() {
    let existing = vec![n(".config")];
    assert_eq!(unique_name(&n(".config"), &existing), n(".config_1"));
}

#[test]
fn only_the_last_dot_separates_the_extension() {
    let existing = vec![n("archive.tar.gz")];
    assert_eq!(unique_name(&n("archive.tar.gz"), &existing), n("archive.tar_1.gz"));
}

#[test]
fn gaps_in_the_counters_are_reused() {
    // a_1.txt is free even though a.txt and a_2.txt are taken: the
    // first free counter wins.
    let existing = vec![n("a.txt"), n("a_2.txt")];
    assert_eq!(unique_name(&n("a.txt"), &existing), n("a_1.txt"));
}

#[test]
fn counters_go_past_nine() {
    let mut existing = vec![n("f")];
    for i in 1..=10 {
        existing.push(n(&format!("f_{}", i)));
    }
    assert_eq!(unique_name(&n("f"), &existing), n("f_11"));
}
