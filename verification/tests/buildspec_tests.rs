use pkg_export_container::buildspec::{BuildSpec, ResolvedUnit};
use pkg_export_container::error::ExportError;
use pkg_export_container::ident::PackageIdent;

fn s(v: &str) -> String {
    String::from(v)
}

fn spec(refs: &[&str]) -> BuildSpec {
    BuildSpec {
        idents_or_archives: refs.iter().map(|r| s(r)).collect(),
        base_image: s("scratch"),
        default_origin: s("core"),
    }
}

fn ident_of(unit: &ResolvedUnit) -> &PackageIdent {
    match unit {
        ResolvedUnit::Package { ident } => ident,
        ResolvedUnit::Archive { .. } => panic!("expected a package"),
    }
}

#[test]
fn fully_qualified_references_resolve_to_themselves() {
    let sp = spec(&["acme/web/1.2.0/20200101000000"]);
    let units = sp.resolve(&vec![None]).unwrap();
    assert_eq!(units.len(), 1);
    assert_eq!(ident_of(&units[0]).to_text(), "acme/web/1.2.0/20200101000000");
}

#[test]
fn unqualified_references_use_the_depot_answer() {
    let sp = spec(&["core/redis"]);
    let answer = PackageIdent::parse("core/redis/4.0.14/20200101000000").unwrap();
    let units = sp.resolve(&vec![Some(answer)]).unwrap();
    assert_eq!(ident_of(&units[0]).to_text(), "core/redis/4.0.14/20200101000000");
}

#[test]
fn bare_names_take_the_default_origin() {
    let sp = spec(&["redis"]);
    let answer = PackageIdent::parse("core/redis/4.0.14/20200101000000").unwrap();
    let units = sp.resolve(&vec![Some(answer)]).unwrap();
    assert_eq!(ident_of(&units[0]).origin, "core");
}

#[test]
fn artifact_paths_resolve_to_archives() {
    let sp = spec(&["/hab/cache/artifacts/core-redis.hart"]);
    let units = sp.resolve(&vec![None]).unwrap();
    match &units[0] {
        ResolvedUnit::Archive { path } => {
            assert_eq!(path, "/hab/cache/artifacts/core-redis.hart")
        }
        other => panic!("expected an archive, got {:?}", other),
    }
}

#[test]
fn missing_answer_fails_naming_the_reference() {
    let sp = spec(&["acme/web/1.2.0/20200101000000", "doesnotexist/pkg"]);
    match sp.resolve(&vec![None, None]) {
        Err(ExportError::Resolution { reference }) => assert_eq!(reference, "doesnotexist/pkg"),
        other => panic!("wrong result: {:?}", other),
    }
}

#[test]
fn mismatched_answer_fails_resolution() {
    let sp = spec(&["core/redis"]);
    let answer = PackageIdent::parse("core/postgres/11.1/20200101000000").unwrap();
    match sp.resolve(&vec![Some(answer)]) {
        Err(ExportError::Resolution { reference }) => assert_eq!(reference, "core/redis"),
        other => panic!("wrong result: {:?}", other),
    }
}

#[test]
fn partially_qualified_answer_must_match_the_version() {
    let sp = spec(&["core/redis/4.0.14"]);
    let good = PackageIdent::parse("core/redis/4.0.14/20200101000000").unwrap();
    assert!(sp.resolve(&vec![Some(good)]).is_ok());
    let bad = PackageIdent::parse("core/redis/5.0.0/20200101000000").unwrap();
    assert!(sp.resolve(&vec![Some(bad)]).is_err());
}

#[test]
fn resolution_is_deterministic() {
    let sp = spec(&["acme/web/1.2.0/20200101000000", "core/redis"]);
    let answers = || {
        vec![None, Some(PackageIdent::parse("core/redis/4.0.14/20200101000000").unwrap())]
    };
    let once = sp.resolve(&answers()).unwrap();
    let twice = sp.resolve(&answers()).unwrap();
    let texts = |units: &Vec<ResolvedUnit>| -> Vec<String> {
        units.iter().map(|u| ident_of(u).to_text()).collect()
    };
    assert_eq!(texts(&once), texts(&twice));
}
