use pkg_export_container::ident::PackageIdent;
use pkg_export_container::naming::Naming;
use pkg_export_container::registry::RegistryType;

fn ident() -> PackageIdent {
    PackageIdent::parse("acme/web/1.2.0/20200101000000").unwrap()
}

fn naming() -> Naming {
    Naming {
        custom_image_name: None,
        latest_tag: false,
        version_tag: false,
        version_release_tag: false,
        custom_tag: None,
        registry_url: None,
        registry_type: RegistryType::Docker,
    }
}

#[test]
fn tags_follow_the_precedence_order() {
    let mut n = naming();
    n.custom_tag = Some(String::from("nightly"));
    n.version_release_tag = true;
    n.version_tag = true;
    n.latest_tag = true;
    assert_eq!(
        n.tag_list(&ident()),
        vec![
            String::from("nightly"),
            String::from("1.2.0-20200101000000"),
            String::from("1.2.0"),
            String::from("latest"),
        ]
    );
}

#[test]
fn duplicate_tags_keep_their_first_occurrence() {
    let mut n = naming();
    n.custom_tag = Some(String::from("latest"));
    n.version_tag = true;
    n.latest_tag = true;
    assert_eq!(n.tag_list(&ident()), vec![String::from("latest"), String::from("1.2.0")]);
}

#[test]
fn duplicate_version_custom_tag_is_not_repeated() {
    let mut n = naming();
    n.custom_tag = Some(String::from("1.2.0"));
    n.version_tag = true;
    assert_eq!(n.tag_list(&ident()), vec![String::from("1.2.0")]);
}

#[test]
fn empty_policy_falls_back_to_a_default_tag() {
    let n = naming();
    assert_eq!(n.tag_list(&ident()), vec![String::from("latest")]);
}

#[test]
fn image_name_derives_from_the_identifier() {
    assert_eq!(naming().image_name(&ident()), "acme/web");
}

#[test]
fn custom_image_name_overrides_the_default() {
    let mut n = naming();
    n.custom_image_name = Some(String::from("registry.example.com/web"));
    assert_eq!(n.image_name(&ident()), "registry.example.com/web");
}
