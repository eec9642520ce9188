//! The annotation micro-grammar: keys, argument groups, and the bound list.

use derive_quickcheck_arbitrary::config::{parse_attr_args, AttrArgs, Configuration};
use derive_quickcheck_arbitrary::errors::ConfigFault;

fn args(content: &[u8]) -> AttrArgs {
    parse_attr_args(content).expect("content should parse")
}

fn config(content: &[u8]) -> Result<Configuration, ConfigFault> {
    Configuration::parse(content)
}

#[test]
fn attr_args() {
    assert_eq!(
        args(b"skip"),
        AttrArgs { gen: None, skip: true, default: false, where_args: None },
    );
    assert_eq!(
        args(b"default"),
        AttrArgs { gen: None, skip: false, default: true, where_args: None },
    );
    assert_eq!(
        args(b"gen(some_fn)"),
        AttrArgs { gen: Some(b"some_fn".to_vec()), skip: false, default: false, where_args: None },
    );
    assert_eq!(
        args(b"where(foo)"),
        AttrArgs { gen: None, skip: false, default: false, where_args: Some(b"foo".to_vec()) },
    );
}

#[test]
fn gen_keeps_nested_expression() {
    let a = args(b"gen(|g| num::clamp(usize::arbitrary(g), 0, 10_000))");
    assert_eq!(a.gen, Some(b"|g| num::clamp(usize::arbitrary(g), 0, 10_000)".to_vec()));
    assert!(!a.skip && !a.default && a.where_args.is_none());
}

#[test]
fn spaced_token_text_is_accepted() {
    let a = args(b" gen (| _ | String :: new ()) ");
    assert_eq!(a.gen, Some(b"| _ | String :: new ()".to_vec()));
    assert_eq!(config(b" skip "), Ok(Configuration::Skip));
}

#[test]
fn empty_content_has_no_key() {
    assert_eq!(args(b""), AttrArgs { gen: None, skip: false, default: false, where_args: None });
    assert_eq!(config(b""), Err(ConfigFault::NoKey));
    assert_eq!(config(b"   "), Err(ConfigFault::NoKey));
}

#[test]
fn unknown_key_is_rejected() {
    assert_eq!(parse_attr_args(b"does_not_exist"), Err(ConfigFault::UnknownKey));
    assert_eq!(config(b"does_not_exist"), Err(ConfigFault::UnknownKey));
}

#[test]
fn key_combination_is_rejected() {
    let a = args(b"skip, default");
    assert!(a.skip && a.default);
    assert_eq!(config(b"skip, default"), Err(ConfigFault::MultipleKeys));
    assert_eq!(config(b"gen(f), where(T: Clone)"), Err(ConfigFault::MultipleKeys));
}

#[test]
fn repeated_key_is_rejected() {
    assert_eq!(parse_attr_args(b"skip, skip"), Err(ConfigFault::RepeatedKey));
    assert_eq!(parse_attr_args(b"gen(f), gen(g)"), Err(ConfigFault::RepeatedKey));
}

#[test]
fn flags_take_no_arguments_and_calls_need_them() {
    assert_eq!(parse_attr_args(b"gen"), Err(ConfigFault::MissingArgs));
    assert_eq!(parse_attr_args(b"where"), Err(ConfigFault::MissingArgs));
    assert_eq!(parse_attr_args(b"skip(x)"), Err(ConfigFault::UnexpectedArgs));
    assert_eq!(parse_attr_args(b"default(x)"), Err(ConfigFault::UnexpectedArgs));
}

#[test]
fn unbalanced_or_stray_text_is_rejected() {
    assert_eq!(parse_attr_args(b"gen((("), Err(ConfigFault::Unbalanced));
    assert_eq!(parse_attr_args(b"skip extra"), Err(ConfigFault::Unbalanced));
    assert_eq!(parse_attr_args(b",skip"), Err(ConfigFault::Unbalanced));
    assert_eq!(parse_attr_args(b"skip,,default"), Err(ConfigFault::Unbalanced));
}

#[test]
fn trailing_comma_is_accepted() {
    assert_eq!(config(b"skip,"), Ok(Configuration::Skip));
    assert_eq!(config(b"default, "), Ok(Configuration::Default));
}

#[test]
fn where_splits_on_top_level_commas() {
    assert_eq!(
        config(b"where(T: Arbitrary, U: Into<Vec<u8>>)"),
        Ok(Configuration::WhereBounds(vec![
            b"T: Arbitrary".to_vec(),
            b"U: Into<Vec<u8>>".to_vec(),
        ])),
    );
    assert_eq!(
        config(b"where(T: Default + Clone + 'static)"),
        Ok(Configuration::WhereBounds(vec![b"T: Default + Clone + 'static".to_vec()])),
    );
}

#[test]
fn where_split_skips_commas_inside_groups_and_arrows() {
    assert_eq!(
        config(b"where(F: Fn(u8, u8) -> u8, G: Clone)"),
        Ok(Configuration::WhereBounds(vec![
            b"F: Fn(u8, u8) -> u8".to_vec(),
            b"G: Clone".to_vec(),
        ])),
    );
}

#[test]
fn where_bound_list_edges() {
    assert_eq!(config(b"where()"), Ok(Configuration::WhereBounds(vec![])));
    assert_eq!(
        config(b"where(T: Clone,)"),
        Ok(Configuration::WhereBounds(vec![b"T: Clone".to_vec()])),
    );
    assert_eq!(config(b"where(,)"), Err(ConfigFault::EmptyBound));
    assert_eq!(config(b"where(, T: Clone)"), Err(ConfigFault::EmptyBound));
}
