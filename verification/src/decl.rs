//! The in-memory shape of a type declaration: a record with named or
//! positional fields, or a tagged union of such records, each site carrying
//! the raw annotation blocks found on it.
//!
//! Names are held as strings; every other piece of source text (annotation
//! content, declared types, the generic parameter list) is carried as the
//! bytes of its token text and never interpreted here beyond the annotation
//! micro-grammar.

use vstd::prelude::*;

verus! {


/// The ghost images of a sequence of viewable values, element by element.
pub open spec fn views_of<T: View>(s: Seq<T>) -> Seq<T::V> {
    s.map(|i: int, x: T| x@)
}

/// `views_of` of a one-element prepend is the prepend of the images.
pub proof fn lemma_views_of_prepend<T: View>(s: Seq<T>, e: T)
    ensures
        views_of(s.insert(0, e)) =~= seq![e@] + views_of(s),
{
    let l = views_of(s.insert(0, e));
    let r = seq![e@] + views_of(s);
    s.insert_ensures(0, e);
    assert(l.len() == r.len());
    assert forall|i: int| 0 <= i < l.len() implies l[i] == r[i] by {
        if i > 0 {
            assert(s.insert(0, e)[i] == s[i - 1]);
        }
    }
}

/// One annotation block found on a site, still unparsed.
pub struct RawAnnotation {
    /// The block's path, e.g. `arbitrary`; blocks with any other path are
    /// not this library's concern and are ignored.
    pub marker: String,
    /// Whether the block was written in inner style (`#![...]`).
    pub inner_style: bool,
    /// The token text inside the block's parentheses.
    pub content: Vec<u8>,
}

/// Ghost image of a [`RawAnnotation`].
pub ghost struct RawAnnotationView {
    pub marker: Seq<char>,
    pub inner_style: bool,
    pub content: Seq<u8>,
}

impl View for RawAnnotation {
    type V = RawAnnotationView;

    open spec fn view(&self) -> RawAnnotationView {
        RawAnnotationView {
            marker: self.marker@,
            inner_style: self.inner_style,
            content: self.content@,
        }
    }
}

/// One field of a record or of a variant body.
pub struct FieldDecl {
    /// The field's name; positional fields have none and are identified by
    /// their position in declaration order.
    pub name: Option<String>,
    /// The token text of the field's declared type.
    pub ty: Vec<u8>,
    /// The annotation blocks found on the field.
    pub attrs: Vec<RawAnnotation>,
}

/// Ghost image of a [`FieldDecl`].
pub ghost struct FieldDeclView {
    pub name: Option<Seq<char>>,
    pub ty: Seq<u8>,
    pub attrs: Seq<RawAnnotationView>,
}

impl View for FieldDecl {
    type V = FieldDeclView;

    open spec fn view(&self) -> FieldDeclView {
        FieldDeclView {
            name: match self.name {
                Some(n) => Some(n@),
                None => None,
            },
            ty: self.ty@,
            attrs: views_of(self.attrs@),
        }
    }
}

/// One variant of a tagged union, with its body of fields.
pub struct VariantDecl {
    pub name: String,
    pub fields: Vec<FieldDecl>,
    /// The annotation blocks found on the variant.
    pub attrs: Vec<RawAnnotation>,
}

/// Ghost image of a [`VariantDecl`].
pub ghost struct VariantDeclView {
    pub name: Seq<char>,
    pub fields: Seq<FieldDeclView>,
    pub attrs: Seq<RawAnnotationView>,
}

impl View for VariantDecl {
    type V = VariantDeclView;

    open spec fn view(&self) -> VariantDeclView {
        VariantDeclView {
            name: self.name@,
            fields: views_of(self.fields@),
            attrs: views_of(self.attrs@),
        }
    }
}

/// The body of a declaration: a record, a tagged union, or a raw-memory
/// union, which constructor generation rejects outright.
pub enum TypeBody {
    Record(Vec<FieldDecl>),
    TaggedUnion(Vec<VariantDecl>),
    RawMemoryUnion,
}

/// Ghost image of a [`TypeBody`].
pub ghost enum TypeBodyView {
    Record(Seq<FieldDeclView>),
    TaggedUnion(Seq<VariantDeclView>),
    RawMemoryUnion,
}

impl View for TypeBody {
    type V = TypeBodyView;

    open spec fn view(&self) -> TypeBodyView {
        match self {
            TypeBody::Record(fields) => TypeBodyView::Record(
                views_of(fields@),
            ),
            TypeBody::TaggedUnion(variants) => TypeBodyView::TaggedUnion(
                views_of(variants@),
            ),
            TypeBody::RawMemoryUnion => TypeBodyView::RawMemoryUnion,
        }
    }
}

/// A whole type declaration, as the external declaration parser hands it
/// over: the declared name, the token text of the generic parameter list
/// (empty when there is none), the item-level annotation blocks, and the
/// body.
pub struct TypeDeclaration {
    pub name: String,
    pub generics: Vec<u8>,
    pub attrs: Vec<RawAnnotation>,
    pub body: TypeBody,
}

/// Ghost image of a [`TypeDeclaration`].
pub ghost struct TypeDeclarationView {
    pub name: Seq<char>,
    pub generics: Seq<u8>,
    pub attrs: Seq<RawAnnotationView>,
    pub body: TypeBodyView,
}

impl View for TypeDeclaration {
    type V = TypeDeclarationView;

    open spec fn view(&self) -> TypeDeclarationView {
        TypeDeclarationView {
            name: self.name@,
            generics: self.generics@,
            attrs: views_of(self.attrs@),
            body: self.body@,
        }
    }
}

} // verus!
