use gitops_manifests::naming::derive_name;
use gitops_manifests::naming::derive_names;
use gitops_manifests::naming::find_collision;
use gitops_manifests::naming::split_labels;

fn strings(items: &[&str]) -> Vec<String> {
    items.iter().map(|item| item.to_string()).collect()
}

#[test]
fn derive_name_reverses_the_labels() {
    assert_eq!(derive_name("app.example.com"), "com-example-app");
    assert_eq!(derive_name("prod.app.example.com"), "com-example-app-prod");
}

#[test]
fn derive_name_keeps_a_single_label() {
    assert_eq!(derive_name("localhost"), "localhost");
}

#[test]
fn derive_name_of_nothing_is_nothing() {
    assert_eq!(derive_name(""), "");
}

#[test]
fn derive_name_keeps_empty_labels() {
    assert_eq!(derive_name("a."), "-a");
    assert_eq!(derive_name(".a"), "a-");
    assert_eq!(derive_name(".."), "--");
    assert_eq!(derive_name("a..b"), "b--a");
}

#[test]
fn derive_name_leaves_dashes_inside_labels() {
    assert_eq!(derive_name("a-b.c"), "c-a-b");
    assert_eq!(derive_name("b.c-a"), "c-a-b");
}

#[test]
fn derive_name_counts_characters_not_bytes() {
    assert_eq!(derive_name("bücher.example"), "example-bücher");
    assert_eq!(derive_name("日本.例え"), "例え-日本");
}

#[test]
fn derive_name_is_as_long_as_the_domain() {
    for domain in ["", ".", "a.b.c", "x-y.z", "localhost", "..a.."] {
        assert_eq!(derive_name(domain).chars().count(), domain.chars().count());
    }
}

#[test]
fn split_labels_gives_one_more_label_than_dots() {
    assert_eq!(split_labels("app.example.com"), strings(&["app", "example", "com"]));
    assert_eq!(split_labels("localhost"), strings(&["localhost"]));
    assert_eq!(split_labels(""), strings(&[""]));
    assert_eq!(split_labels("a."), strings(&["a", ""]));
    assert_eq!(split_labels(".a"), strings(&["", "a"]));
    assert_eq!(split_labels(".."), strings(&["", "", ""]));
}

#[test]
fn derive_names_keeps_the_order() {
    assert_eq!(
        derive_names(&strings(&["prod.app.example.com", "app.example.com", "localhost"])),
        strings(&["com-example-app-prod", "com-example-app", "localhost"])
    );
    assert_eq!(derive_names(&Vec::new()), Vec::<String>::new());
}

#[test]
fn mirrored_domains_do_not_collide() {
    assert_eq!(derive_name("a.com"), "com-a");
    assert_eq!(derive_name("com.a"), "a-com");
    assert_ne!(derive_name("a.com"), derive_name("com.a"));
    assert_eq!(find_collision(&strings(&["a.com", "com.a"])), None);
}

#[test]
fn find_collision_reports_domains_with_the_same_name() {
    assert_eq!(find_collision(&strings(&["a-b.c", "b.c-a"])), Some((0, 1)));
    assert_eq!(find_collision(&strings(&["localhost", "a-b.c", "x.y", "b.a.c"])), Some((1, 3)));
}

#[test]
fn find_collision_reports_the_first_pair() {
    let domains = strings(&["a-b.c", "zzz", "b.a.c", "b.c-a"]);
    assert_eq!(find_collision(&domains), Some((0, 2)));
    let domains = strings(&["q", "b.a.c", "b.c-a", "a-b.c"]);
    assert_eq!(find_collision(&domains), Some((1, 2)));
}

#[test]
fn find_collision_passes_over_repeated_domains() {
    assert_eq!(find_collision(&strings(&["a.com", "a.com"])), None);
    assert_eq!(find_collision(&strings(&["a.com", "a.com", "b-com.a", "com.a.b"])), None);
}

#[test]
fn find_collision_of_few_domains_finds_nothing() {
    assert_eq!(find_collision(&Vec::new()), None);
    assert_eq!(find_collision(&strings(&["localhost"])), None);
    assert_eq!(find_collision(&strings(&["prod.app.example.com", "app.example.com"])), None);
}
