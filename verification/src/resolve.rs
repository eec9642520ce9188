//! Site resolution: of all annotation blocks on one site, the ones whose
//! path is the reserved marker `arbitrary` are parsed in order; a block in
//! inner style or with malformed content fails first, more than one
//! well-formed block is a duplication error, and a recognized key at a site
//! that forbids it is inapplicable.

use vstd::prelude::*;

use crate::config::Configuration;
use crate::config::ConfigurationView;
use crate::config::sp_configuration;
use crate::decl::RawAnnotation;
use crate::decl::RawAnnotationView;
use crate::decl::lemma_views_of_prepend;
use crate::decl::views_of;
use crate::errors::DeriveError;
use crate::errors::SiteKind;

verus! {

/// The reserved marker: only blocks on this path configure generation.
pub open spec fn marker_name() -> Seq<char> {
    "arbitrary"@
}

/// All marker blocks from position `i` on, parsed in order; the first
/// failing block decides the error.
pub open spec fn sp_blocks(attrs: Seq<RawAnnotationView>, i: int) -> Result<
    Seq<ConfigurationView>,
    DeriveError,
>
    decreases attrs.len() - i,
{
    if i >= attrs.len() {
        Ok(Seq::empty())
    } else if attrs[i].marker != marker_name() {
        sp_blocks(attrs, i + 1)
    } else if attrs[i].inner_style {
        Err(DeriveError::InnerAnnotationNotSupported)
    } else {
        match sp_configuration(attrs[i].content) {
            Err(f) => Err(DeriveError::MalformedConfiguration(f)),
            Ok(c) => match sp_blocks(attrs, i + 1) {
                Err(e) => Err(e),
                Ok(rest) => Ok(seq![c] + rest),
            },
        }
    }
}

/// At most one marker block per site: none resolves to no configuration,
/// one to its configuration, two or more to a duplication error.
pub open spec fn sp_get_one(attrs: Seq<RawAnnotationView>, site: SiteKind) -> Result<
    Option<ConfigurationView>,
    DeriveError,
> {
    match sp_blocks(attrs, 0) {
        Err(e) => Err(e),
        Ok(cs) => if cs.len() == 0 {
            Ok(None)
        } else if cs.len() == 1 {
            Ok(Some(cs[0]))
        } else {
            Err(DeriveError::DuplicateAnnotation(site))
        },
    }
}

/// Which keys each kind of site admits: `default` and `gen` are for fields,
/// `skip` is for variants, `where` is for the item.
pub open spec fn sp_applicable(site: SiteKind, c: ConfigurationView) -> bool {
    match site {
        SiteKind::Field => c is Default || c is Generator,
        SiteKind::Variant => c is Skip,
        SiteKind::Item => c is WhereBounds,
    }
}

/// One site fully resolved: its single marker block, parsed and checked
/// against the site's admitted keys.
pub open spec fn sp_resolve(site: SiteKind, attrs: Seq<RawAnnotationView>) -> Result<
    Option<ConfigurationView>,
    DeriveError,
> {
    match sp_get_one(attrs, site) {
        Err(e) => Err(e),
        Ok(None) => Ok(None),
        Ok(Some(c)) => if sp_applicable(site, c) {
            Ok(Some(c))
        } else {
            Err(DeriveError::InapplicableAtSite(site))
        },
    }
}

/// The ghost image of one block-collection result.
pub open spec fn res_blocks(r: Result<Vec<Configuration>, DeriveError>) -> Result<
    Seq<ConfigurationView>,
    DeriveError,
> {
    match r {
        Ok(v) => Ok(views_of(v@)),
        Err(e) => Err(e),
    }
}

/// The ghost image of one site-resolution result.
pub open spec fn res_opt_cfg(r: Result<Option<Configuration>, DeriveError>) -> Result<
    Option<ConfigurationView>,
    DeriveError,
> {
    match r {
        Ok(Some(c)) => Ok(Some(c@)),
        Ok(None) => Ok(None),
        Err(e) => Err(e),
    }
}

/// All marker blocks from position `i` on, as executable code.
fn blocks_from(attrs: &Vec<RawAnnotation>, i: usize, marker: &String) -> (r: Result<
    Vec<Configuration>,
    DeriveError,
>)
    requires
        i <= attrs.len(),
        marker@ == marker_name(),
    ensures
        res_blocks(r) == sp_blocks(views_of(attrs@), i as int),
    decreases attrs.len() - i,
{
    let ghost av = views_of(attrs@);
    if i >= attrs.len() {
        let r: Vec<Configuration> = Vec::new();
        proof {
            assert(views_of(r@) =~= Seq::<ConfigurationView>::empty());
        }
        Ok(r)
    } else {
        proof {
            assert(av[i as int] == attrs@[i as int]@);
        }
        if !(attrs[i].marker == *marker) {
            blocks_from(attrs, i + 1, marker)
        } else if attrs[i].inner_style {
            Err(DeriveError::InnerAnnotationNotSupported)
        } else {
            match Configuration::parse(attrs[i].content.as_slice()) {
                Err(f) => Err(DeriveError::MalformedConfiguration(f)),
                Ok(c) => {
                    match blocks_from(attrs, i + 1, marker) {
                        Err(e) => Err(e),
                        Ok(mut rest) => {
                            let ghost restv = rest@;
                            let ghost cv = c@;
                            rest.insert(0, c);
                            proof {
                                lemma_views_of_prepend(restv, c);
                                assert(views_of(rest@) =~= seq![cv] + views_of(restv));
                            }
                            Ok(rest)
                        },
                    }
                },
            }
        }
    }
}

/// At most one marker block per site, as executable code. Mirrors the
/// collection step alone; admitted keys are checked by [`resolve`].
pub fn get_one_arg(attrs: &Vec<RawAnnotation>, site: SiteKind) -> (r: Result<
    Option<Configuration>,
    DeriveError,
>)
    ensures
        res_opt_cfg(r) == sp_get_one(views_of(attrs@), site),
{
    let marker = "arbitrary".to_owned();
    match blocks_from(attrs, 0, &marker) {
        Err(e) => Err(e),
        Ok(mut cs) => {
            if cs.len() == 0 {
                Ok(None)
            } else if cs.len() == 1 {
                let ghost csv = cs@;
                let c = cs.remove(0);
                proof {
                    assert(views_of(csv)[0] == csv[0]@);
                }
                Ok(Some(c))
            } else {
                Err(DeriveError::DuplicateAnnotation(site))
            }
        },
    }
}

/// One site fully resolved, as executable code.
pub fn resolve(site: SiteKind, attrs: &Vec<RawAnnotation>) -> (r: Result<
    Option<Configuration>,
    DeriveError,
>)
    ensures
        res_opt_cfg(r) == sp_resolve(site, views_of(attrs@)),
{
    match get_one_arg(attrs, site) {
        Err(e) => Err(e),
        Ok(None) => Ok(None),
        Ok(Some(c)) => {
            let applicable = match site {
                SiteKind::Field => matches!(c, Configuration::Default | Configuration::Generator(_)),
                SiteKind::Variant => matches!(c, Configuration::Skip),
                SiteKind::Item => matches!(c, Configuration::WhereBounds(_)),
            };
            if applicable {
                Ok(Some(c))
            } else {
                Err(DeriveError::InapplicableAtSite(site))
            }
        },
    }
}

} // verus!
