//! Site resolution: marker filtering, duplication, inner style, and the
//! site-applicability rules, with their stable diagnostic texts.

use derive_quickcheck_arbitrary::config::Configuration;
use derive_quickcheck_arbitrary::decl::RawAnnotation;
use derive_quickcheck_arbitrary::errors::{ConfigFault, DeriveError, SiteKind};
use derive_quickcheck_arbitrary::resolve::{get_one_arg, resolve};

fn marker(content: &[u8]) -> RawAnnotation {
    RawAnnotation {
        marker: "arbitrary".to_owned(),
        inner_style: false,
        content: content.to_vec(),
    }
}

fn inner_marker(content: &[u8]) -> RawAnnotation {
    RawAnnotation { marker: "arbitrary".to_owned(), inner_style: true, content: content.to_vec() }
}

fn foreign(name: &str, content: &[u8]) -> RawAnnotation {
    RawAnnotation { marker: name.to_owned(), inner_style: false, content: content.to_vec() }
}

#[test]
fn no_blocks_resolve_to_nothing() {
    assert_eq!(resolve(SiteKind::Field, &vec![]), Ok(None));
    assert_eq!(resolve(SiteKind::Variant, &vec![]), Ok(None));
    assert_eq!(resolve(SiteKind::Item, &vec![]), Ok(None));
}

#[test]
fn foreign_blocks_are_ignored() {
    let attrs = vec![foreign("doc", b"= \"a field\""), foreign("serde", b"rename = \"x\"")];
    assert_eq!(resolve(SiteKind::Field, &attrs), Ok(None));
    let attrs = vec![foreign("doc", b""), marker(b"default")];
    assert_eq!(resolve(SiteKind::Field, &attrs), Ok(Some(Configuration::Default)));
}

#[test]
fn duplicate_blocks_always_fail() {
    let attrs = vec![marker(b"default"), marker(b"default")];
    let r = resolve(SiteKind::Field, &attrs);
    assert_eq!(r, Err(DeriveError::DuplicateAnnotation(SiteKind::Field)));
    assert_eq!(
        r.unwrap_err().message(),
        "`#[arbitrary(...)]` can only be specified once",
    );
    // not silently picking one holds of distinct contents too
    let attrs = vec![marker(b"default"), marker(b"gen(f)")];
    assert_eq!(
        resolve(SiteKind::Field, &attrs),
        Err(DeriveError::DuplicateAnnotation(SiteKind::Field)),
    );
}

#[test]
fn malformed_block_fails_before_duplication() {
    let attrs = vec![marker(b"does_not_exist"), marker(b"default")];
    assert_eq!(
        resolve(SiteKind::Field, &attrs),
        Err(DeriveError::MalformedConfiguration(ConfigFault::UnknownKey)),
    );
    assert_eq!(
        DeriveError::MalformedConfiguration(ConfigFault::UnknownKey).message(),
        "expected one of  `gen`, `default`, `where` or `skip`",
    );
}

#[test]
fn inner_style_is_a_hard_error() {
    let attrs = vec![inner_marker(b"skip")];
    let r = resolve(SiteKind::Variant, &attrs);
    assert_eq!(r, Err(DeriveError::InnerAnnotationNotSupported));
    assert_eq!(
        r.unwrap_err().message(),
        "only outer attributes are supported: `#[arbitrary(...)]`",
    );
}

#[test]
fn skip_is_not_valid_for_fields() {
    let r = resolve(SiteKind::Field, &vec![marker(b"skip")]);
    assert_eq!(r, Err(DeriveError::InapplicableAtSite(SiteKind::Field)));
    assert_eq!(r.unwrap_err().message(), "`skip` and `where` are not valid for members");
    assert_eq!(
        resolve(SiteKind::Field, &vec![marker(b"where(T: Clone)")]),
        Err(DeriveError::InapplicableAtSite(SiteKind::Field)),
    );
}

#[test]
fn field_keys_are_not_valid_for_variants() {
    for content in [&b"default"[..], b"gen(f)", b"where(T: Clone)"] {
        let r = resolve(SiteKind::Variant, &vec![marker(content)]);
        assert_eq!(r, Err(DeriveError::InapplicableAtSite(SiteKind::Variant)));
        assert_eq!(
            r.unwrap_err().message(),
            "`gen`, `default` and `where` are not valid for enum variants",
        );
    }
}

#[test]
fn only_where_is_valid_for_items() {
    for content in [&b"default"[..], b"gen(f)", b"skip"] {
        let r = resolve(SiteKind::Item, &vec![marker(content)]);
        assert_eq!(r, Err(DeriveError::InapplicableAtSite(SiteKind::Item)));
        assert_eq!(r.unwrap_err().message(), "only `where` is valid for items");
    }
    assert_eq!(
        resolve(SiteKind::Item, &vec![marker(b"where(T: Clone)")]),
        Ok(Some(Configuration::WhereBounds(vec![b"T: Clone".to_vec()]))),
    );
}

#[test]
fn get_one_arg_reports_sites_without_admission_checks() {
    // collection alone: `skip` on a field site is still handed back; the
    // admission check is the resolver's second step
    assert_eq!(
        get_one_arg(&vec![marker(b"skip")], SiteKind::Field),
        Ok(Some(Configuration::Skip)),
    );
}
