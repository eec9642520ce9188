//! The library's laws: what holds of resolution and synthesis for every
//! declaration, proved once and for all over the specification functions
//! that the executable pipeline is verified against.

use vstd::prelude::*;

use crate::config::ConfigurationView;
use crate::config::sp_configuration;
use crate::decl::RawAnnotationView;
use crate::errors::ConfigFault;
use crate::errors::DeriveError;
use crate::errors::SiteKind;
use crate::resolve::marker_name;
use crate::resolve::sp_applicable;
use crate::resolve::sp_blocks;
use crate::resolve::sp_get_one;
use crate::resolve::sp_resolve;
use crate::synth::FieldPlanView;
use crate::synth::RecipeView;
use crate::synth::StrategyView;
use crate::synth::sp_field_plans;
use crate::synth::sp_field_strategy;
use crate::synth::sp_member;
use crate::synth::sp_expand;
use crate::synth::CtorExprView;
use crate::synth::sp_candidates;
use crate::decl::VariantDeclView;
use crate::decl::FieldDeclView;
use crate::decl::TypeBodyView;
use crate::decl::TypeDeclarationView;

verus! {

/// No block from position `i` on bears the reserved marker.
pub open spec fn no_marker_from(attrs: Seq<RawAnnotationView>, i: int) -> bool {
    forall|j: int| i <= j < attrs.len() ==> #[trigger] attrs[j].marker != marker_name()
}

/// No block on the site bears the reserved marker.
pub open spec fn no_marker(attrs: Seq<RawAnnotationView>) -> bool {
    no_marker_from(attrs, 0)
}

/// Exactly one block bears the reserved marker, in outer style, at
/// position `m`.
pub open spec fn single_marker_at(attrs: Seq<RawAnnotationView>, m: int) -> bool {
    &&& 0 <= m < attrs.len()
    &&& attrs[m].marker == marker_name()
    &&& !attrs[m].inner_style
    &&& forall|j: int|
        0 <= j < attrs.len() && j != m ==> #[trigger] attrs[j].marker != marker_name()
}

/// How many blocks from position `i` on bear the reserved marker.
pub open spec fn count_markers(attrs: Seq<RawAnnotationView>, i: int) -> int
    decreases attrs.len() - i,
{
    if i >= attrs.len() {
        0
    } else {
        (if attrs[i].marker == marker_name() {
            1int
        } else {
            0
        }) + count_markers(attrs, i + 1)
    }
}

/// A site without the marker contributes no block.
pub proof fn lemma_no_marker_blocks(attrs: Seq<RawAnnotationView>, i: int)
    requires
        0 <= i,
        no_marker_from(attrs, i),
    ensures
        sp_blocks(attrs, i) == Ok::<Seq<ConfigurationView>, DeriveError>(Seq::empty()),
    decreases attrs.len() - i,
{
    if i < attrs.len() {
        lemma_no_marker_blocks(attrs, i + 1);
    }
}

/// A site without the marker resolves to no configuration, whatever the
/// site kind: fields then recurse, variants are included, the item adds no
/// constraint.
pub proof fn lemma_no_marker_resolves(site: SiteKind, attrs: Seq<RawAnnotationView>)
    requires
        no_marker(attrs),
    ensures
        sp_resolve(site, attrs) == Ok::<Option<ConfigurationView>, DeriveError>(None),
{
    lemma_no_marker_blocks(attrs, 0);
}

/// A site whose single marker block stands at `m` contributes exactly that
/// block's parse: its configuration, or its fault chained into a malformed
/// diagnostic.
pub proof fn lemma_single_blocks(attrs: Seq<RawAnnotationView>, m: int, i: int)
    requires
        single_marker_at(attrs, m),
        0 <= i <= m,
    ensures
        sp_blocks(attrs, i) == match sp_configuration(attrs[m].content) {
            Ok(c) => Ok::<Seq<ConfigurationView>, DeriveError>(seq![c]),
            Err(f) => Err::<Seq<ConfigurationView>, DeriveError>(
                DeriveError::MalformedConfiguration(f),
            ),
        },
    decreases m - i,
{
    if i == m {
        lemma_no_marker_blocks(attrs, m + 1);
        match sp_configuration(attrs[m].content) {
            Ok(c) => {
                assert(seq![c] + Seq::<ConfigurationView>::empty() =~= seq![c]);
            },
            Err(_) => {
            },
        }
    } else {
        lemma_single_blocks(attrs, m, i + 1);
    }
}

/// A site whose single marker block carries a key the site admits resolves
/// to exactly that configuration.
pub proof fn lemma_single_resolves(site: SiteKind, attrs: Seq<RawAnnotationView>, m: int)
    requires
        single_marker_at(attrs, m),
        sp_configuration(attrs[m].content) matches Ok(c) && sp_applicable(site, c),
    ensures
        sp_resolve(site, attrs) == match sp_configuration(attrs[m].content) {
            Ok(c) => Ok::<Option<ConfigurationView>, DeriveError>(Some(c)),
            Err(_) => Ok(None),
        },
{
    lemma_single_blocks(attrs, m, 0);
}

/// A syntactically valid key at a site that forbids it always fails with
/// the inapplicability error of that site, never silently: `skip` on a
/// field, `default`, `gen` or `where` on a variant, anything but `where`
/// on the item.
pub proof fn lemma_inapplicable(site: SiteKind, attrs: Seq<RawAnnotationView>, m: int)
    requires
        single_marker_at(attrs, m),
        sp_configuration(attrs[m].content) matches Ok(c) && !sp_applicable(site, c),
    ensures
        sp_resolve(site, attrs) == Err::<Option<ConfigurationView>, DeriveError>(
            DeriveError::InapplicableAtSite(site),
        ),
{
    lemma_single_blocks(attrs, m, 0);
}

/// A site whose single marker block does not parse fails with the
/// malformed-configuration error carrying that block's fault.
pub proof fn lemma_malformed(site: SiteKind, attrs: Seq<RawAnnotationView>, m: int)
    requires
        single_marker_at(attrs, m),
        sp_configuration(attrs[m].content) matches Err(f),
    ensures
        sp_resolve(site, attrs) == match sp_configuration(attrs[m].content) {
            Err(f) => Err::<Option<ConfigurationView>, DeriveError>(
                DeriveError::MalformedConfiguration(f),
            ),
            Ok(_) => Ok(None),
        },
{
    lemma_single_blocks(attrs, m, 0);
}

/// When every marker block on a site is outer and parses, the site's block
/// list is exactly one configuration per marker block.
pub proof fn lemma_blocks_all_ok(attrs: Seq<RawAnnotationView>, i: int)
    requires
        0 <= i,
        forall|j: int|
            i <= j < attrs.len() && #[trigger] attrs[j].marker == marker_name()
                ==> !attrs[j].inner_style && sp_configuration(attrs[j].content) is Ok,
    ensures
        sp_blocks(attrs, i) matches Ok(cs) && cs.len() == count_markers(attrs, i),
    decreases attrs.len() - i,
{
    if i < attrs.len() {
        lemma_blocks_all_ok(attrs, i + 1);
    }
}

/// Two or more marker blocks on one site always fail with the duplication
/// error, never silently pick one — independent of the blocks' contents,
/// as long as each parses on its own.
pub proof fn lemma_duplicate(site: SiteKind, attrs: Seq<RawAnnotationView>)
    requires
        forall|j: int|
            0 <= j < attrs.len() && #[trigger] attrs[j].marker == marker_name()
                ==> !attrs[j].inner_style && sp_configuration(attrs[j].content) is Ok,
        count_markers(attrs, 0) >= 2,
    ensures
        sp_get_one(attrs, site) == Err::<Option<ConfigurationView>, DeriveError>(
            DeriveError::DuplicateAnnotation(site),
        ),
{
    lemma_blocks_all_ok(attrs, 0);
}

/// A marker block in inner style fails the site, whatever its content,
/// as soon as no earlier marker block fails first.
pub proof fn lemma_inner_style(attrs: Seq<RawAnnotationView>, m: int)
    requires
        0 <= m < attrs.len(),
        attrs[m].marker == marker_name(),
        attrs[m].inner_style,
        forall|j: int|
            0 <= j < m ==> #[trigger] attrs[j].marker != marker_name(),
    ensures
        sp_blocks(attrs, 0) == Err::<Seq<ConfigurationView>, DeriveError>(
            DeriveError::InnerAnnotationNotSupported,
        ),
{
    lemma_inner_style_from(attrs, m, 0);
}

/// Helper for [`lemma_inner_style`], walking up to the offending block.
proof fn lemma_inner_style_from(attrs: Seq<RawAnnotationView>, m: int, i: int)
    requires
        0 <= i <= m < attrs.len(),
        attrs[m].marker == marker_name(),
        attrs[m].inner_style,
        forall|j: int|
            i <= j < m ==> #[trigger] attrs[j].marker != marker_name(),
    ensures
        sp_blocks(attrs, i) == Err::<Seq<ConfigurationView>, DeriveError>(
            DeriveError::InnerAnnotationNotSupported,
        ),
    decreases m - i,
{
    if i < m {
        lemma_inner_style_from(attrs, m, i + 1);
    }
}

/// For a field whose single marker block is `default`, the plan takes the
/// field type's default value on every call, deterministically, whatever
/// state the randomness source is in: the strategy consumes no randomness.
pub proof fn lemma_default_field(f: FieldDeclView, m: int)
    requires
        single_marker_at(f.attrs, m),
        sp_configuration(f.attrs[m].content) == Ok::<ConfigurationView, ConfigFault>(
            ConfigurationView::Default,
        ),
    ensures
        sp_field_strategy(f) == Ok::<StrategyView, DeriveError>(StrategyView::UseDefault),
{
    lemma_single_resolves(SiteKind::Field, f.attrs, m);
}

/// For a field whose single marker block is `gen(expr)`, the plan invokes
/// exactly that expression, once per call, forwarding the handle.
pub proof fn lemma_generator_field(f: FieldDeclView, m: int)
    requires
        single_marker_at(f.attrs, m),
    ensures
        sp_configuration(f.attrs[m].content) matches Ok(ConfigurationView::Generator(e))
            ==> sp_field_strategy(f) == Ok::<StrategyView, DeriveError>(
            StrategyView::UseGenerator(e),
        ),
{
    if sp_configuration(f.attrs[m].content) matches Ok(ConfigurationView::Generator(e)) {
        lemma_single_resolves(SiteKind::Field, f.attrs, m);
    }
}

/// No field of the sequence bears a marker annotation.
pub open spec fn all_fields_unannotated(fs: Seq<FieldDeclView>) -> bool {
    forall|k: int| 0 <= k < fs.len() ==> no_marker(#[trigger] fs[k].attrs)
}

/// Unannotated fields all resolve, and every one of them recurses into its
/// own type's constructor, one plan per field in declaration order.
pub proof fn lemma_unannotated_plans(fs: Seq<FieldDeclView>, i: int)
    requires
        0 <= i <= fs.len(),
        all_fields_unannotated(fs),
    ensures
        ({
            &&& sp_field_plans(fs, i) matches Ok(ps)
            &&& ps.len() == fs.len() - i
            &&& forall|k: int|
                0 <= k < ps.len() ==> #[trigger] ps[k] == (FieldPlanView {
                    member: sp_member(fs[i + k], i + k),
                    ty: fs[i + k].ty,
                    strategy: StrategyView::Recurse,
                })
        }),
    decreases fs.len() - i,
{
    if i < fs.len() {
        lemma_no_marker_resolves(SiteKind::Field, fs[i].attrs);
        lemma_unannotated_plans(fs, i + 1);
    }
}

/// For a record declaration bearing no marker annotation anywhere,
/// synthesis succeeds, adds no constraint, and constructs every field, in
/// declaration order, by that field's own recursive constructor: nothing
/// is defaulted and no generator expression is invoked.
pub proof fn lemma_unannotated_record(d: TypeDeclarationView)
    requires
        no_marker(d.attrs),
        d.body is Record,
        all_fields_unannotated(d.body->Record_0),
    ensures
        ({
            &&& sp_expand(d) matches Ok(g)
            &&& g.name == d.name
            &&& g.generics == d.generics
            &&& g.bounds == Seq::<Seq<u8>>::empty()
            &&& g.recipe matches RecipeView::Record(c)
            &&& c.path == seq![d.name]
            &&& c.fields.len() == d.body->Record_0.len()
            &&& forall|k: int|
                0 <= k < c.fields.len() ==> #[trigger] c.fields[k] == (FieldPlanView {
                    member: sp_member(d.body->Record_0[k], k),
                    ty: d.body->Record_0[k].ty,
                    strategy: StrategyView::Recurse,
                })
        }),
{
    lemma_no_marker_resolves(SiteKind::Item, d.attrs);
    lemma_unannotated_plans(d.body->Record_0, 0);
}

/// A variant without a marker annotation, or whose single marker block the
/// resolver admits nothing of, takes part in the selection exactly when its
/// site resolves to no configuration.
pub open spec fn variant_included(v: VariantDeclView) -> bool {
    sp_resolve(SiteKind::Variant, v.attrs) == Ok::<Option<ConfigurationView>, DeriveError>(None)
}

/// A variant whose site resolves to a configuration — on a variant only
/// `skip` resolves — is left out of the selection.
pub open spec fn variant_skipped(v: VariantDeclView) -> bool {
    sp_resolve(SiteKind::Variant, v.attrs) matches Ok(Some(_))
}

/// The construction expression an included variant contributes: the type
/// and variant names as the path, and its fields' plans.
pub open spec fn variant_ctor_of(tn: Seq<char>, v: VariantDeclView) -> CtorExprView {
    CtorExprView {
        path: seq![tn, v.name],
        fields: match sp_field_plans(v.fields, 0) {
            Ok(ps) => ps,
            Err(_) => Seq::empty(),
        },
    }
}

/// The construction expressions of the variants from position `i` on that
/// take part in the selection, in declaration order.
pub open spec fn included_ctors(tn: Seq<char>, vs: Seq<VariantDeclView>, i: int) -> Seq<
    CtorExprView,
>
    decreases vs.len() - i,
{
    if i >= vs.len() {
        Seq::empty()
    } else if variant_included(vs[i]) {
        seq![variant_ctor_of(tn, vs[i])] + included_ctors(tn, vs, i + 1)
    } else {
        included_ctors(tn, vs, i + 1)
    }
}

/// Whenever a tagged union synthesizes, its candidate collection is exactly
/// the construction expressions of the included variants, in declaration
/// order: a skipped variant contributes nothing, every other variant
/// contributes once, so the uniform pick ranges over precisely the
/// remaining variants.
pub proof fn lemma_candidates(tn: Seq<char>, vs: Seq<VariantDeclView>, i: int)
    requires
        0 <= i,
    ensures
        sp_candidates(tn, vs, i) matches Ok(cs) ==> cs == included_ctors(tn, vs, i),
    decreases vs.len() - i,
{
    if i < vs.len() {
        lemma_candidates(tn, vs, i + 1);
        match crate::synth::sp_variant_ctor(tn, vs[i]) {
            Err(_) => {},
            Ok(None) => {
                assert(!variant_included(vs[i]));
            },
            Ok(Some(c)) => {
                assert(variant_included(vs[i]));
                assert(c == variant_ctor_of(tn, vs[i]));
            },
        }
    }
}

/// A skipped variant is never selected: when the variants' names are
/// pairwise distinct, no included construction expression bears the skipped
/// variant's path.
pub proof fn lemma_skipped_never_selected(
    tn: Seq<char>,
    vs: Seq<VariantDeclView>,
    i: int,
    k: int,
)
    requires
        0 <= i,
        0 <= k < vs.len(),
        variant_skipped(vs[k]),
        forall|j: int| 0 <= j < vs.len() && j != k ==> #[trigger] vs[j].name != vs[k].name,
    ensures
        forall|p: int|
            0 <= p < included_ctors(tn, vs, i).len() ==> (#[trigger] included_ctors(tn, vs, i)[p]).path
                != seq![tn, vs[k].name],
    decreases vs.len() - i,
{
    if i < vs.len() {
        lemma_skipped_never_selected(tn, vs, i + 1, k);
        let ic = included_ctors(tn, vs, i);
        let rest = included_ctors(tn, vs, i + 1);
        if variant_included(vs[i]) {
            assert(i != k);
            assert(seq![tn, vs[i].name][1] == vs[i].name);
            assert(seq![tn, vs[k].name][1] == vs[k].name);
            assert(ic[0].path != seq![tn, vs[k].name]);
            assert forall|p: int|
                0 <= p < ic.len() implies (#[trigger] ic[p]).path != seq![tn, vs[k].name] by {
                if p > 0 {
                    assert(ic[p] == rest[p - 1]);
                }
            }
        }
    }
}

/// An included variant always stays eligible: its construction expression
/// stands in the included collection.
pub proof fn lemma_included_contributes(tn: Seq<char>, vs: Seq<VariantDeclView>, i: int, k: int)
    requires
        0 <= i <= k < vs.len(),
        variant_included(vs[k]),
    ensures
        included_ctors(tn, vs, i).contains(variant_ctor_of(tn, vs[k])),
    decreases vs.len() - i,
{
    let ic = included_ctors(tn, vs, i);
    let rest = included_ctors(tn, vs, i + 1);
    if i == k {
        assert(ic[0] == variant_ctor_of(tn, vs[k]));
    } else {
        lemma_included_contributes(tn, vs, i + 1, k);
        let p = choose|p: int| 0 <= p < rest.len() && rest[p] == variant_ctor_of(tn, vs[k]);
        if variant_included(vs[i]) {
            assert(ic[p + 1] == rest[p]);
        }
    }
}

/// With every variant skipped, the candidate collection is empty: the
/// generated selector then has nothing to choose from and fails at its
/// first invocation — it neither returns a default nor loops.
pub proof fn lemma_all_skipped(tn: Seq<char>, vs: Seq<VariantDeclView>, i: int)
    requires
        0 <= i,
        forall|j: int| i <= j < vs.len() ==> variant_skipped(#[trigger] vs[j]),
    ensures
        sp_candidates(tn, vs, i) == Ok::<Seq<CtorExprView>, DeriveError>(Seq::empty()),
    decreases vs.len() - i,
{
    if i < vs.len() {
        assert(variant_skipped(vs[i]));
        lemma_all_skipped(tn, vs, i + 1);
    }
}

/// With every variant skipped, the whole synthesis still succeeds — the
/// failure is deferred to the selector's first run — and its recipe selects
/// from an empty collection.
pub proof fn lemma_all_skipped_expand(d: TypeDeclarationView)
    requires
        no_marker(d.attrs),
        d.body is TaggedUnion,
        forall|j: int|
            0 <= j < d.body->TaggedUnion_0.len() ==> variant_skipped(
                #[trigger] d.body->TaggedUnion_0[j],
            ),
    ensures
        ({
            &&& sp_expand(d) matches Ok(g)
            &&& g.recipe matches RecipeView::Selection(cs)
            &&& cs.len() == 0
        }),
{
    lemma_no_marker_resolves(SiteKind::Item, d.attrs);
    lemma_all_skipped(d.name, d.body->TaggedUnion_0, 0);
}

/// At the whole-declaration level: whenever a tagged union synthesizes,
/// its recipe selects among exactly the included variants' construction
/// expressions, in declaration order.
pub proof fn lemma_expand_candidates(d: TypeDeclarationView)
    requires
        d.body is TaggedUnion,
    ensures
        sp_expand(d) matches Ok(g) ==> (g.recipe matches RecipeView::Selection(cs) && cs
            == included_ctors(d.name, d.body->TaggedUnion_0, 0)),
{
    lemma_candidates(d.name, d.body->TaggedUnion_0, 0);
}

} // verus!
