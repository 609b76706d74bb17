use pyroscope::pyroscope::merge_tags_with_app_name;
use pyroscope::tags::Tags;

fn tags_of(pairs: &[(&str, &str)]) -> Tags {
    let mut tags = Tags::new();
    for (key, value) in pairs {
        tags.insert(key.to_string(), value.to_string());
    }
    tags
}

#[test]
fn merge_tags_with_app_name_with_tags() {
    let mut tags = Tags::new();
    tags.insert("env".to_string(), "staging".to_string());
    tags.insert("region".to_string(), "us-west-1".to_string());
    tags.insert("__name__".to_string(), "reserved".to_string());
    assert_eq!(
        merge_tags_with_app_name("my.awesome.app.cpu".to_string(), tags),
        "my.awesome.app.cpu{env=staging,region=us-west-1}".to_string()
    )
}

#[test]
fn merge_tags_with_app_name_without_tags() {
    assert_eq!(
        merge_tags_with_app_name("my.awesome.app.cpu".to_string(), Tags::default()),
        "my.awesome.app.cpu".to_string()
    )
}

#[test]
fn merge_sorts_the_tags() {
    let tags = tags_of(&[("z", "1"), ("a", "2")]);
    assert_eq!(merge_tags_with_app_name("a".to_string(), tags), "a{a=2,z=1}");
}

#[test]
fn merge_does_not_depend_on_insertion_order() {
    let one = tags_of(&[("env", "prod"), ("region", "eu"), ("az", "b"), ("host", "h1")]);
    let other = tags_of(&[("host", "h1"), ("az", "b"), ("region", "eu"), ("env", "prod")]);
    let third = tags_of(&[("region", "eu"), ("host", "h1"), ("env", "prod"), ("az", "b")]);
    let expected = "svc{az=b,env=prod,host=h1,region=eu}";
    assert_eq!(merge_tags_with_app_name("svc".to_string(), one), expected);
    assert_eq!(merge_tags_with_app_name("svc".to_string(), other), expected);
    assert_eq!(merge_tags_with_app_name("svc".to_string(), third), expected);
}

#[test]
fn merge_with_only_the_reserved_key_gives_the_name() {
    let tags = tags_of(&[("__name__", "x")]);
    assert_eq!(merge_tags_with_app_name("svc".to_string(), tags), "svc");
}

#[test]
fn merge_drops_the_reserved_key_wherever_it_stands() {
    let first = tags_of(&[("__name__", "x"), ("b", "2"), ("a", "1")]);
    let middle = tags_of(&[("b", "2"), ("__name__", "x"), ("a", "1")]);
    let last = tags_of(&[("b", "2"), ("a", "1"), ("__name__", "x")]);
    assert_eq!(merge_tags_with_app_name("svc".to_string(), first), "svc{a=1,b=2}");
    assert_eq!(merge_tags_with_app_name("svc".to_string(), middle), "svc{a=1,b=2}");
    assert_eq!(merge_tags_with_app_name("svc".to_string(), last), "svc{a=1,b=2}");
}

#[test]
fn merge_keeps_keys_that_only_resemble_the_reserved_key() {
    let tags = tags_of(&[("__name", "1"), ("__name___", "2"), ("name", "3")]);
    assert_eq!(
        merge_tags_with_app_name("svc".to_string(), tags),
        "svc{__name=1,__name___=2,name=3}"
    );
}

#[test]
fn merge_sorts_by_the_whole_text_not_by_the_key() {
    // By key alone "a" would come before "a-"; as texts "a-=1" comes before "a=1".
    let tags = tags_of(&[("a", "1"), ("a-", "1")]);
    assert_eq!(merge_tags_with_app_name("n".to_string(), tags), "n{a-=1,a=1}");
}

#[test]
fn merge_with_a_single_tag() {
    let tags = tags_of(&[("env", "prod")]);
    assert_eq!(merge_tags_with_app_name("svc".to_string(), tags), "svc{env=prod}");
}

#[test]
fn merge_keeps_empty_keys_and_values() {
    let tags = tags_of(&[("", ""), ("k", "")]);
    assert_eq!(merge_tags_with_app_name("svc".to_string(), tags), "svc{=,k=}");
}

#[test]
fn merge_with_an_empty_application_name() {
    assert_eq!(merge_tags_with_app_name(String::new(), Tags::new()), "");
    let tags = tags_of(&[("k", "v")]);
    assert_eq!(merge_tags_with_app_name(String::new(), tags), "{k=v}");
}

#[test]
fn merge_orders_by_code_point() {
    let tags = tags_of(&[("\u{10000}", "4"), ("\u{e9}", "2"), ("z", "1"), ("\u{ffff}", "3")]);
    assert_eq!(
        merge_tags_with_app_name("svc".to_string(), tags),
        "svc{z=1,\u{e9}=2,\u{ffff}=3,\u{10000}=4}"
    );
}

#[test]
fn insert_replaces_the_value_of_a_key() {
    let mut tags = Tags::new();
    assert_eq!(tags.len(), 0);
    assert_eq!(tags.insert("env".to_string(), "dev".to_string()), None);
    assert_eq!(tags.insert("az".to_string(), "a".to_string()), None);
    assert_eq!(tags.len(), 2);
    assert_eq!(tags.insert("env".to_string(), "prod".to_string()), Some("dev".to_string()));
    assert_eq!(tags.len(), 2);
    assert_eq!(merge_tags_with_app_name("svc".to_string(), tags), "svc{az=a,env=prod}");
}

#[test]
fn default_tags_are_empty() {
    assert_eq!(Tags::default().len(), 0);
}
