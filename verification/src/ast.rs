//! The AST node for a project declaration: a name, an ordered field list,
//! attributes, optional documentation and a source span, with opaque,
//! index-based identifiers for its fields.

use vstd::prelude::*;

verus! {

/// A location range in the source text, used for diagnostics.
#[derive(Debug, Clone, Copy, PartialEq, Eq, Structural)]
pub struct Span {
    /// Offset of the first character covered.
    pub start: usize,
    /// Offset one past the last character covered.
    pub end: usize,
}

/// An identifier token together with its source span.
#[derive(Debug, Clone, PartialEq, Eq)]
pub struct Identifier {
    /// The identifier's text.
    pub name: String,
    /// Where the identifier stands in the source.
    pub span: Span,
}

/// A documentation comment attached to a declaration.
#[derive(Debug, Clone, PartialEq, Eq)]
pub struct Comment {
    /// The comment's text.
    pub text: String,
}

/// An attribute of a declaration.
#[derive(Debug, Clone, PartialEq, Eq)]
pub struct Attribute {
    /// The attribute's name.
    pub name: Identifier,
    /// Where the attribute stands in the source.
    pub span: Span,
}

/// One member of a project declaration's body; opaque payload from this
/// module's point of view.
#[derive(Debug, Clone, PartialEq, Eq)]
pub struct Field {
    /// The field's name.
    pub name: Identifier,
    /// Where the field stands in the source.
    pub span: Span,
}

/// An opaque identifier for a field in an AST project declaration. It stands
/// for "the Nth field" of the declaration it was obtained from, and is only
/// meaningful paired with that declaration; it carries no back-reference.
/// Totally ordered by its numeric value, so it can key sorted maps.
#[derive(Debug, Clone, Copy, PartialEq, Eq, PartialOrd, Ord, Hash, Structural)]
pub struct FieldId(pub u32);

impl FieldId {
    /// The lowest possible id: used for range bounds when scanning ordered
    /// maps keyed by `FieldId`, not as an index into an actual declaration.
    pub fn min() -> (r: FieldId)
        ensures
            r.0 == 0,
    {
        FieldId(0)
    }

    /// The highest possible id: used for range bounds when scanning ordered
    /// maps keyed by `FieldId`, not as an index into an actual declaration.
    pub fn max() -> (r: FieldId)
        ensures
            r.0 == u32::MAX,
    {
        FieldId(u32::MAX)
    }
}

/// A project declaration: immutable after construction; its field ordering
/// is stable, matching declaration order in the source text.
#[derive(Debug, Clone)]
pub struct Project {
    /// The name of the project.
    pub name: Identifier,
    /// The fields of the project, in declaration order.
    pub fields: Vec<Field>,
    /// The attributes of this project.
    pub attributes: Vec<Attribute>,
    /// The documentation of this project.
    pub documentation: Option<Comment>,
    /// The location of this project in the text representation.
    pub span: Span,
}

/// Whether `s` is exactly the field listing of `p`: one pair per field of
/// `p`, in declaration order, the `i`th pair carrying the `FieldId` with
/// numeric value `i` and the `i`th field itself.
pub open spec fn is_field_listing(s: Seq<(FieldId, &Field)>, p: Project) -> bool {
    &&& s.len() == p.fields@.len()
    &&& forall|i: int|
        0 <= i < s.len() ==> (#[trigger] s[i]).0.0 == i && *s[i].1 == p.fields@[i]
}

impl Project {
    /// Every field of a well-formed declaration can be addressed by a 32-bit
    /// `FieldId`.
    pub open spec fn wf(&self) -> bool {
        self.fields@.len() <= u32::MAX
    }

    /// Builds a declaration from its parts; the field list is kept exactly,
    /// in the given order, and is never reordered afterwards.
    pub fn new(
        name: Identifier,
        fields: Vec<Field>,
        attributes: Vec<Attribute>,
        documentation: Option<Comment>,
        span: Span,
    ) -> (r: Project)
        requires
            fields@.len() <= u32::MAX,
        ensures
            r.name == name,
            r.fields == fields,
            r.attributes == attributes,
            r.documentation == documentation,
            r.span == span,
            r.wf(),
    {
        Project { name, fields, attributes, documentation, span }
    }

    /// Resolves a `FieldId` back to the field at that position. The id must
    /// have been obtained from this very declaration: an out-of-range id is a
    /// programmer error, excluded by the precondition rather than clamped or
    /// defaulted.
    pub fn index(&self, index: FieldId) -> (r: &Field)
        requires
            index.0 < self.fields@.len(),
        ensures
            *r == self.fields@[index.0 as int],
    {
        &self.fields[index.0 as usize]
    }

    /// Pairs every field with its `FieldId`, in declaration order: the `i`th
    /// pair holds the id with numeric value `i` and a view of the `i`th
    /// field. Read-only: the declaration is left untouched, and calling this
    /// again yields the same listing.
    pub fn iter_fields(&self) -> (r: Vec<(FieldId, &Field)>)
        requires
            self.wf(),
        ensures
            is_field_listing(r@, *self),
    {
        let mut r: Vec<(FieldId, &Field)> = Vec::new();
        let mut idx: usize = 0;
        while idx < self.fields.len()
            invariant
                self.wf(),
                idx <= self.fields@.len(),
                r@.len() == idx,
                forall|i: int|
                    0 <= i < idx ==> (#[trigger] r@[i]).0.0 == i && *r@[i].1 == self.fields@[i],
            decreases self.fields@.len() - idx,
        {
            r.push((FieldId(idx as u32), &self.fields[idx]));
            idx = idx + 1;
        }
        r
    }

    /// The declared name, as a read-only view.
    pub fn identifier(&self) -> (r: &Identifier)
        ensures
            *r == self.name,
    {
        &self.name
    }

    /// The source span of the whole declaration.
    pub fn span(&self) -> (r: Span)
        ensures
            r == self.span,
    {
        self.span
    }

    /// The declaration's attributes, as a read-only view.
    pub fn attributes(&self) -> (r: &[Attribute])
        ensures
            r@ == self.attributes@,
    {
        self.attributes.as_slice()
    }

    /// The leading documentation comment's text, if any.
    pub fn documentation(&self) -> (r: Option<&str>)
        ensures
            match self.documentation {
                Some(doc) => r is Some && r->0@ == doc.text@,
                None => r is None,
            },
    {
        match &self.documentation {
            Some(doc) => Some(doc.text.as_str()),
            None => None,
        }
    }
}

/// Law: a field listing has exactly as many entries as the declaration has
/// fields, and resolving the `i`th listed `FieldId` against the declaration
/// yields the very field listed beside it (identity and order round-trip).
pub proof fn lemma_listing_round_trip(s: Seq<(FieldId, &Field)>, p: Project, i: int)
    requires
        is_field_listing(s, p),
        0 <= i < s.len(),
    ensures
        s.len() == p.fields@.len(),
        s[i].0.0 < p.fields@.len(),
        p.fields@[s[i].0.0 as int] == *s[i].1,
{
}

/// Law: iterating a declaration's fields is restartable. Any two field
/// listings of the same declaration are identical, pair by pair.
pub proof fn lemma_listing_restartable(
    s1: Seq<(FieldId, &Field)>,
    s2: Seq<(FieldId, &Field)>,
    p: Project,
)
    requires
        is_field_listing(s1, p),
        is_field_listing(s2, p),
    ensures
        s1.len() == s2.len(),
        forall|i: int|
            0 <= i < s1.len() ==> (#[trigger] s1[i]).0 == s2[i].0 && *s1[i].1 == *s2[i].1,
{
}

} // verus!
