//! Error kinds reported while resolving annotations and synthesizing a
//! constructor, with their stable diagnostic texts.

use vstd::prelude::*;

verus! {

/// A syntactic location at which configuration may be attached.
#[derive(Clone, Copy, Debug, PartialEq, Eq, Structural)]
pub enum SiteKind {
    /// The whole declaration.
    Item,
    /// One field of a record or of a variant body.
    Field,
    /// One variant of a tagged union.
    Variant,
}

/// What went wrong inside one annotation block: the underlying failure that a
/// `MalformedConfiguration` diagnostic chains for context.
#[derive(Clone, Copy, Debug, PartialEq, Eq, Structural)]
pub enum ConfigFault {
    /// A key that is none of `gen`, `default`, `where`, `skip`.
    UnknownKey,
    /// The same key written twice in one block.
    RepeatedKey,
    /// `gen` or `where` without its parenthesized argument.
    MissingArgs,
    /// `skip` or `default` followed by a parenthesized argument.
    UnexpectedArgs,
    /// A delimiter that never closes, or stray text around an entry.
    Unbalanced,
    /// An empty annotation block: no key at all.
    NoKey,
    /// More than one of the four keys in a single block.
    MultipleKeys,
    /// An empty element in the bound list of `where(...)`.
    EmptyBound,
}

/// A failure of constructor generation, detected while resolving annotations
/// or synthesizing the recipe.
#[derive(Clone, Copy, Debug, PartialEq, Eq, Structural)]
pub enum DeriveError {
    /// More than one configuration block on one site.
    DuplicateAnnotation(SiteKind),
    /// A block whose content is none of the recognized forms; carries the
    /// underlying fault for diagnostics.
    MalformedConfiguration(ConfigFault),
    /// A recognized key used at a site that forbids it.
    InapplicableAtSite(SiteKind),
    /// A raw-memory union declaration.
    UnsupportedDeclarationKind,
    /// An annotation written in inner style.
    InnerAnnotationNotSupported,
    /// Every variant excluded: selection has nothing to choose from. This one
    /// surfaces when the generated selector runs, not while generating.
    EmptyVariantSet,
}

impl DeriveError {
    /// The stable diagnostic text of this error kind.
    pub fn message(&self) -> (r: String)
        ensures
            r@ == self.spec_message(),
    {
        match self {
            DeriveError::DuplicateAnnotation(_) => "`#[arbitrary(...)]` can only be specified once".to_owned(),
            DeriveError::MalformedConfiguration(_) => "expected one of  `gen`, `default`, `where` or `skip`".to_owned(),
            DeriveError::InapplicableAtSite(SiteKind::Field) => "`skip` and `where` are not valid for members".to_owned(),
            DeriveError::InapplicableAtSite(SiteKind::Variant) => "`gen`, `default` and `where` are not valid for enum variants".to_owned(),
            DeriveError::InapplicableAtSite(SiteKind::Item) => "only `where` is valid for items".to_owned(),
            DeriveError::UnsupportedDeclarationKind => "#[derive(Arbitrary)] is not supported on `union`s".to_owned(),
            DeriveError::InnerAnnotationNotSupported => "only outer attributes are supported: `#[arbitrary(...)]`".to_owned(),
            DeriveError::EmptyVariantSet => "no variants to choose from".to_owned(),
        }
    }

    /// The diagnostic text, as a sequence of characters.
    pub open spec fn spec_message(&self) -> Seq<char> {
        match self {
            DeriveError::DuplicateAnnotation(_) => "`#[arbitrary(...)]` can only be specified once"@,
            DeriveError::MalformedConfiguration(_) => "expected one of  `gen`, `default`, `where` or `skip`"@,
            DeriveError::InapplicableAtSite(SiteKind::Field) => "`skip` and `where` are not valid for members"@,
            DeriveError::InapplicableAtSite(SiteKind::Variant) => "`gen`, `default` and `where` are not valid for enum variants"@,
            DeriveError::InapplicableAtSite(SiteKind::Item) => "only `where` is valid for items"@,
            DeriveError::UnsupportedDeclarationKind => "#[derive(Arbitrary)] is not supported on `union`s"@,
            DeriveError::InnerAnnotationNotSupported => "only outer attributes are supported: `#[arbitrary(...)]`"@,
            DeriveError::EmptyVariantSet => "no variants to choose from"@,
        }
    }
}

} // verus!
