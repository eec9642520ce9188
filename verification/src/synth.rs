//! The constructor synthesizer: resolved strategies for every field and
//! variant of a declaration become a construction recipe and an augmented
//! bound list.
//!
//! A record's recipe covers every field in declaration order. A tagged
//! union's recipe is the ordered collection of the construction expressions
//! of every variant that is not skipped; the generated code materializes
//! all of them and then picks one uniformly at random, so the cost and side
//! effects of every included variant are paid on every call, whichever
//! variant the pick returns.

use vstd::prelude::*;

use crate::config::ConfigurationView;
use crate::decl::FieldDecl;
use crate::decl::FieldDeclView;
use crate::decl::TypeBody;
use crate::decl::TypeBodyView;
use crate::decl::TypeDeclaration;
use crate::decl::TypeDeclarationView;
use crate::decl::VariantDecl;
use crate::decl::VariantDeclView;
use crate::decl::RawAnnotationView;
use crate::decl::lemma_views_of_prepend;
use crate::decl::views_of;
use crate::errors::DeriveError;
use crate::errors::SiteKind;
use crate::resolve::resolve;
use crate::resolve::sp_resolve;
use crate::scan::copy_bytes;
use crate::config::Configuration;

verus! {

/// How one field's value is produced.
#[derive(Debug, PartialEq, Eq)]
pub enum Strategy {
    /// Invoke the field type's own random-value constructor with the shared
    /// handle.
    Recurse,
    /// Invoke the given generator expression once, forwarding the handle.
    UseGenerator(Vec<u8>),
    /// Take the field type's default value; consumes no randomness.
    UseDefault,
}

/// Ghost image of a [`Strategy`].
pub ghost enum StrategyView {
    Recurse,
    UseGenerator(Seq<u8>),
    UseDefault,
}

impl View for Strategy {
    type V = StrategyView;

    open spec fn view(&self) -> StrategyView {
        match self {
            Strategy::Recurse => StrategyView::Recurse,
            Strategy::UseGenerator(e) => StrategyView::UseGenerator(e@),
            Strategy::UseDefault => StrategyView::UseDefault,
        }
    }
}

/// The member a field plan assigns: a named field, or a positional one
/// identified by its place in declaration order.
#[derive(Debug, PartialEq, Eq)]
pub enum Member {
    Named(String),
    Positional(usize),
}

/// Ghost image of a [`Member`].
pub ghost enum MemberView {
    Named(Seq<char>),
    Positional(int),
}

impl View for Member {
    type V = MemberView;

    open spec fn view(&self) -> MemberView {
        match self {
            Member::Named(n) => MemberView::Named(n@),
            Member::Positional(ix) => MemberView::Positional(*ix as int),
        }
    }
}

/// One field of a construction expression: which member it assigns, the
/// token text of the member's declared type, and how the value is produced.
#[derive(Debug, PartialEq, Eq)]
pub struct FieldPlan {
    pub member: Member,
    pub ty: Vec<u8>,
    pub strategy: Strategy,
}

/// Ghost image of a [`FieldPlan`].
pub ghost struct FieldPlanView {
    pub member: MemberView,
    pub ty: Seq<u8>,
    pub strategy: StrategyView,
}

impl View for FieldPlan {
    type V = FieldPlanView;

    open spec fn view(&self) -> FieldPlanView {
        FieldPlanView { member: self.member@, ty: self.ty@, strategy: self.strategy@ }
    }
}

/// One construction expression: the path of the constructed value (the type
/// name, with the variant name behind it for a tagged union), and the plan
/// of every field in declaration order.
#[derive(Debug, PartialEq, Eq)]
pub struct CtorExpr {
    pub path: Vec<String>,
    pub fields: Vec<FieldPlan>,
}

/// Ghost image of a [`CtorExpr`].
pub ghost struct CtorExprView {
    pub path: Seq<Seq<char>>,
    pub fields: Seq<FieldPlanView>,
}

impl View for CtorExpr {
    type V = CtorExprView;

    open spec fn view(&self) -> CtorExprView {
        CtorExprView { path: views_of(self.path@), fields: views_of(self.fields@) }
    }
}

/// The construction recipe of one declaration.
#[derive(Debug, PartialEq, Eq)]
pub enum Recipe {
    /// A record: one construction expression.
    Record(CtorExpr),
    /// A tagged union: the candidate collection, in declaration order, from
    /// which the generated code picks one element uniformly at random.
    Selection(Vec<CtorExpr>),
}

/// Ghost image of a [`Recipe`].
pub ghost enum RecipeView {
    Record(CtorExprView),
    Selection(Seq<CtorExprView>),
}

impl View for Recipe {
    type V = RecipeView;

    open spec fn view(&self) -> RecipeView {
        match self {
            Recipe::Record(c) => RecipeView::Record(c@),
            Recipe::Selection(cs) => RecipeView::Selection(views_of(cs@)),
        }
    }
}

/// The synthesized implementation of the random-value constructor contract
/// for one declaration: the declared name and generic parameter list carried
/// through unchanged, the constraint clause (exactly the item-level bound
/// list, or empty), and the construction recipe.
#[derive(Debug, PartialEq, Eq)]
pub struct GeneratedImpl {
    pub name: String,
    pub generics: Vec<u8>,
    pub bounds: Vec<Vec<u8>>,
    pub recipe: Recipe,
}

/// Ghost image of a [`GeneratedImpl`].
pub ghost struct GeneratedImplView {
    pub name: Seq<char>,
    pub generics: Seq<u8>,
    pub bounds: Seq<Seq<u8>>,
    pub recipe: RecipeView,
}

impl View for GeneratedImpl {
    type V = GeneratedImplView;

    open spec fn view(&self) -> GeneratedImplView {
        GeneratedImplView {
            name: self.name@,
            generics: self.generics@,
            bounds: views_of(self.bounds@),
            recipe: self.recipe@,
        }
    }
}

/// The strategy of one field: no configuration recurses, `default` takes
/// the default value, `gen` invokes the generator expression.
pub open spec fn sp_field_strategy(f: FieldDeclView) -> Result<StrategyView, DeriveError> {
    match sp_resolve(SiteKind::Field, f.attrs) {
        Err(e) => Err(e),
        Ok(None) => Ok(StrategyView::Recurse),
        Ok(Some(c)) => match c {
            ConfigurationView::Default => Ok(StrategyView::UseDefault),
            ConfigurationView::Generator(e) => Ok(StrategyView::UseGenerator(e)),
            _ => Err(DeriveError::InapplicableAtSite(SiteKind::Field)),
        },
    }
}

/// The member assigned for the field at position `ix`.
pub open spec fn sp_member(f: FieldDeclView, ix: int) -> MemberView {
    match f.name {
        Some(n) => MemberView::Named(n),
        None => MemberView::Positional(ix),
    }
}

/// The plan of the field at position `ix`.
pub open spec fn sp_field_plan(f: FieldDeclView, ix: int) -> Result<FieldPlanView, DeriveError> {
    match sp_field_strategy(f) {
        Err(e) => Err(e),
        Ok(st) => Ok(FieldPlanView { member: sp_member(f, ix), ty: f.ty, strategy: st }),
    }
}

/// The plans of all fields from position `i` on, in declaration order; the
/// first field that fails to resolve decides the error.
pub open spec fn sp_field_plans(fields: Seq<FieldDeclView>, i: int) -> Result<
    Seq<FieldPlanView>,
    DeriveError,
>
    decreases fields.len() - i,
{
    if i >= fields.len() {
        Ok(Seq::empty())
    } else {
        match sp_field_plan(fields[i], i) {
            Err(e) => Err(e),
            Ok(p) => match sp_field_plans(fields, i + 1) {
                Err(e) => Err(e),
                Ok(rest) => Ok(seq![p] + rest),
            },
        }
    }
}

/// The construction expression of a record body under the given path.
pub open spec fn sp_ctor(path: Seq<Seq<char>>, fields: Seq<FieldDeclView>) -> Result<
    CtorExprView,
    DeriveError,
> {
    match sp_field_plans(fields, 0) {
        Err(e) => Err(e),
        Ok(ps) => Ok(CtorExprView { path: path, fields: ps }),
    }
}

/// One variant's contribution to the candidate collection: none when the
/// variant is skipped, else its construction expression.
pub open spec fn sp_variant_ctor(tn: Seq<char>, v: VariantDeclView) -> Result<
    Option<CtorExprView>,
    DeriveError,
> {
    match sp_resolve(SiteKind::Variant, v.attrs) {
        Err(e) => Err(e),
        Ok(Some(_)) => Ok(None),
        Ok(None) => match sp_ctor(seq![tn, v.name], v.fields) {
            Err(e) => Err(e),
            Ok(c) => Ok(Some(c)),
        },
    }
}

/// The candidate collection of a tagged union from variant `i` on: the
/// construction expressions of the variants that are not skipped, in
/// declaration order.
pub open spec fn sp_candidates(tn: Seq<char>, vs: Seq<VariantDeclView>, i: int) -> Result<
    Seq<CtorExprView>,
    DeriveError,
>
    decreases vs.len() - i,
{
    if i >= vs.len() {
        Ok(Seq::empty())
    } else {
        match sp_variant_ctor(tn, vs[i]) {
            Err(e) => Err(e),
            Ok(None) => sp_candidates(tn, vs, i + 1),
            Ok(Some(c)) => match sp_candidates(tn, vs, i + 1) {
                Err(e) => Err(e),
                Ok(rest) => Ok(seq![c] + rest),
            },
        }
    }
}

/// The constraint clause of the generated implementation: exactly the
/// item-level bound list when one is configured, else empty.
pub open spec fn sp_item_bounds(attrs: Seq<RawAnnotationView>) -> Result<
    Seq<Seq<u8>>,
    DeriveError,
> {
    match sp_resolve(SiteKind::Item, attrs) {
        Err(e) => Err(e),
        Ok(None) => Ok(Seq::empty()),
        Ok(Some(c)) => match c {
            ConfigurationView::WhereBounds(l) => Ok(l),
            _ => Err(DeriveError::InapplicableAtSite(SiteKind::Item)),
        },
    }
}

/// The whole synthesis: the item-level configuration is resolved first,
/// then the body; a raw-memory union is rejected.
pub open spec fn sp_expand(d: TypeDeclarationView) -> Result<GeneratedImplView, DeriveError> {
    match sp_item_bounds(d.attrs) {
        Err(e) => Err(e),
        Ok(bounds) => match d.body {
            TypeBodyView::Record(fs) => match sp_ctor(seq![d.name], fs) {
                Err(e) => Err(e),
                Ok(c) => Ok(
                    GeneratedImplView {
                        name: d.name,
                        generics: d.generics,
                        bounds: bounds,
                        recipe: RecipeView::Record(c),
                    },
                ),
            },
            TypeBodyView::TaggedUnion(vs) => match sp_candidates(d.name, vs, 0) {
                Err(e) => Err(e),
                Ok(cs) => Ok(
                    GeneratedImplView {
                        name: d.name,
                        generics: d.generics,
                        bounds: bounds,
                        recipe: RecipeView::Selection(cs),
                    },
                ),
            },
            TypeBodyView::RawMemoryUnion => Err(DeriveError::UnsupportedDeclarationKind),
        },
    }
}

/// The ghost image of one field-plan-list result.
pub open spec fn res_plans(r: Result<Vec<FieldPlan>, DeriveError>) -> Result<
    Seq<FieldPlanView>,
    DeriveError,
> {
    match r {
        Ok(v) => Ok(views_of(v@)),
        Err(e) => Err(e),
    }
}

/// The ghost image of one candidate-list result.
pub open spec fn res_ctors(r: Result<Vec<CtorExpr>, DeriveError>) -> Result<
    Seq<CtorExprView>,
    DeriveError,
> {
    match r {
        Ok(v) => Ok(views_of(v@)),
        Err(e) => Err(e),
    }
}

/// The ghost image of one synthesis result.
pub open spec fn res_impl(r: Result<GeneratedImpl, DeriveError>) -> Result<
    GeneratedImplView,
    DeriveError,
> {
    match r {
        Ok(g) => Ok(g@),
        Err(e) => Err(e),
    }
}

/// A construction expression assembled from its path and field plans.
pub fn expr_struct(path: Vec<String>, fields: Vec<FieldPlan>) -> (r: CtorExpr)
    ensures
        r@ == (CtorExprView { path: views_of(path@), fields: views_of(fields@) }),
{
    CtorExpr { path, fields }
}

/// The plans of all fields of one body, in declaration order, as
/// executable code.
pub fn field_values(fields: &Vec<FieldDecl>) -> (r: Result<Vec<FieldPlan>, DeriveError>)
    ensures
        res_plans(r) == sp_field_plans(views_of(fields@), 0),
{
    field_plans_from(fields, 0)
}

/// The plans of all fields from position `i` on, as executable code.
fn field_plans_from(fields: &Vec<FieldDecl>, i: usize) -> (r: Result<Vec<FieldPlan>, DeriveError>)
    requires
        i <= fields.len(),
    ensures
        res_plans(r) == sp_field_plans(views_of(fields@), i as int),
    decreases fields.len() - i,
{
    let ghost fv = views_of(fields@);
    if i >= fields.len() {
        let r: Vec<FieldPlan> = Vec::new();
        proof {
            assert(views_of(r@) =~= Seq::<FieldPlanView>::empty());
        }
        Ok(r)
    } else {
        proof {
            assert(fv[i as int] == fields@[i as int]@);
        }
        let f = &fields[i];
        let strategy = match resolve(SiteKind::Field, &f.attrs) {
            Err(e) => {
                return Err(e);
            },
            Ok(None) => Strategy::Recurse,
            Ok(Some(Configuration::Default)) => Strategy::UseDefault,
            Ok(Some(Configuration::Generator(e))) => Strategy::UseGenerator(e),
            Ok(Some(_)) => {
                return Err(DeriveError::InapplicableAtSite(SiteKind::Field));
            },
        };
        let member = match &f.name {
            Some(n) => Member::Named(n.clone()),
            None => Member::Positional(i),
        };
        let plan = FieldPlan { member, ty: copy_bytes(&f.ty), strategy };
        proof {
            assert(sp_field_plan(fv[i as int], i as int) == Ok::<FieldPlanView, DeriveError>(plan@));
        }
        match field_plans_from(fields, i + 1) {
            Err(e) => Err(e),
            Ok(mut rest) => {
                let ghost restv = rest@;
                let ghost pv = plan@;
                rest.insert(0, plan);
                proof {
                    lemma_views_of_prepend(restv, plan);
                    assert(views_of(rest@) =~= seq![pv] + views_of(restv));
                }
                Ok(rest)
            },
        }
    }
}

/// The candidate collection of a tagged union from variant `i` on, as
/// executable code.
fn variant_ctors(tn: &String, vs: &Vec<VariantDecl>, i: usize) -> (r: Result<
    Vec<CtorExpr>,
    DeriveError,
>)
    requires
        i <= vs.len(),
    ensures
        res_ctors(r) == sp_candidates(tn@, views_of(vs@), i as int),
    decreases vs.len() - i,
{
    let ghost vv = views_of(vs@);
    if i >= vs.len() {
        let r: Vec<CtorExpr> = Vec::new();
        proof {
            assert(views_of(r@) =~= Seq::<CtorExprView>::empty());
        }
        Ok(r)
    } else {
        proof {
            assert(vv[i as int] == vs@[i as int]@);
        }
        let v = &vs[i];
        match resolve(SiteKind::Variant, &v.attrs) {
            Err(e) => Err(e),
            Ok(Some(_)) => variant_ctors(tn, vs, i + 1),
            Ok(None) => {
                let plans = match field_values(&v.fields) {
                    Err(e) => {
                        return Err(e);
                    },
                    Ok(ps) => ps,
                };
                let mut path: Vec<String> = Vec::new();
                path.push(tn.clone());
                path.push(v.name.clone());
                let ctor = expr_struct(path, plans);
                proof {
                    assert(views_of(ctor.path@) =~= seq![tn@, vv[i as int].name]);
                    assert(sp_variant_ctor(tn@, vv[i as int]) == Ok::<Option<CtorExprView>, DeriveError>(Some(ctor@)));
                }
                match variant_ctors(tn, vs, i + 1) {
                    Err(e) => Err(e),
                    Ok(mut rest) => {
                        let ghost restv = rest@;
                        let ghost cv = ctor@;
                        rest.insert(0, ctor);
                        proof {
                            lemma_views_of_prepend(restv, ctor);
                            assert(views_of(rest@) =~= seq![cv] + views_of(restv));
                        }
                        Ok(rest)
                    },
                }
            },
        }
    }
}

/// The whole synthesis, as executable code: resolves the item-level
/// configuration, then the body, and assembles the generated
/// implementation.
pub fn expand_arbitrary(d: &TypeDeclaration) -> (r: Result<GeneratedImpl, DeriveError>)
    ensures
        res_impl(r) == sp_expand(d@),
{
    let bounds: Vec<Vec<u8>> = match resolve(SiteKind::Item, &d.attrs) {
        Err(e) => {
            return Err(e);
        },
        Ok(None) => Vec::new(),
        Ok(Some(Configuration::WhereBounds(l))) => l,
        Ok(Some(_)) => {
            return Err(DeriveError::InapplicableAtSite(SiteKind::Item));
        },
    };
    proof {
        assert(views_of(Seq::<Vec<u8>>::empty()) =~= Seq::<Seq<u8>>::empty());
        assert(sp_item_bounds(views_of(d.attrs@)) == Ok::<Seq<Seq<u8>>, DeriveError>(views_of(bounds@)));
    }
    match &d.body {
        TypeBody::Record(fields) => {
            match field_values(fields) {
                Err(e) => Err(e),
                Ok(plans) => {
                    let mut path: Vec<String> = Vec::new();
                    path.push(d.name.clone());
                    let ctor = expr_struct(path, plans);
                    proof {
                        assert(views_of(ctor.path@) =~= seq![d.name@]);
                    }
                    Ok(
                        GeneratedImpl {
                            name: d.name.clone(),
                            generics: copy_bytes(&d.generics),
                            bounds,
                            recipe: Recipe::Record(ctor),
                        },
                    )
                },
            }
        },
        TypeBody::TaggedUnion(variants) => {
            match variant_ctors(&d.name, variants, 0) {
                Err(e) => Err(e),
                Ok(cs) => Ok(
                    GeneratedImpl {
                        name: d.name.clone(),
                        generics: copy_bytes(&d.generics),
                        bounds,
                        recipe: Recipe::Selection(cs),
                    },
                ),
            }
        },
        TypeBody::RawMemoryUnion => Err(DeriveError::UnsupportedDeclarationKind),
    }
}

/// The selection the generated code performs at run time: the external
/// randomness source supplies `pick`, and the result is the candidate at
/// `pick` reduced modulo the collection's size. With every variant skipped
/// the collection is empty and the selection fails — a failure deferred to
/// the first invocation, never detected while generating.
pub fn select_variant<'a>(candidates: &'a Vec<CtorExpr>, pick: usize) -> (r: Result<
    &'a CtorExpr,
    DeriveError,
>)
    ensures
        r is Err <==> candidates@.len() == 0,
        r matches Err(e) ==> e == DeriveError::EmptyVariantSet,
        r matches Ok(c) ==> *c == candidates@[pick as int % candidates@.len() as int],
{
    if candidates.len() == 0 {
        Err(DeriveError::EmptyVariantSet)
    } else {
        Ok(&candidates[pick % candidates.len()])
    }
}

} // verus!
