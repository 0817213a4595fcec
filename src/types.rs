//! Source type expressions and the mapping of each onto its C-ABI form.
use vstd::prelude::*;

verus! {

/// One segment of a type path: an identifier and, when the segment is
/// generic, the text of its argument list (such as `<u8>`).
pub struct PathSegment {
    pub ident: String,
    pub arguments: Option<String>,
}

/// A type expression as written in a declaration.
///
/// Shapes that the mapper never accepts (arrays, tuples, function types,
/// slices, qualified paths ...) are carried as `Other` with their text.
pub enum TypeExpr {
    /// A path such as `u64`, `Widget` or `std::ffi::c_void`.
    Path { leading_colon: bool, segments: Vec<PathSegment> },
    /// `&T` or `&mut T`.
    Reference { mutable: bool, elem: Box<TypeExpr> },
    /// Tokens that are already in their final form; passed through as they are.
    Verbatim { text: String },
    /// Any other shape, with its text.
    Other { text: String },
}

/// How a mapped type is represented on the native side of the boundary.
#[derive(Clone, Copy, PartialEq, Eq, Structural, Debug)]
pub enum FfiKind {
    /// The named type itself, passed by value.
    Value,
    /// A raw mutable pointer to the named type.
    Pointer,
    /// Pre-formatted tokens, passed through unchanged.
    Verbatim,
}

/// The result of mapping one type expression: its native representation
/// (`kind` applied to `base`) and its C type label.
#[derive(Debug)]
pub struct MappedType {
    pub kind: FfiKind,
    pub base: String,
    pub c_type: String,
}

/// Mathematical value of a [`MappedType`].
pub struct MappedTypeV {
    pub kind: FfiKind,
    pub base: Seq<char>,
    pub c_type: Seq<char>,
}

impl View for MappedType {
    type V = MappedTypeV;

    open spec fn view(&self) -> MappedTypeV {
        MappedTypeV { kind: self.kind, base: self.base@, c_type: self.c_type@ }
    }
}

impl Clone for MappedType {
    fn clone(&self) -> (r: Self)
        ensures
            r == *self,
    {
        MappedType { kind: self.kind, base: self.base.clone(), c_type: self.c_type.clone() }
    }
}

/// Fatal generation-time errors.
#[derive(Debug)]
pub enum GenError {
    /// The owner of an operation collection is not a plain type name.
    UnsupportedOwnerShape { text: String },
    /// A parameter or return type has a shape that the mapper refuses.
    UnsupportedTypeShape { text: String },
}

/// Mathematical value of a [`GenError`]: the kind and the offending text.
pub enum GenErrorV {
    UnsupportedOwnerShape(Seq<char>),
    UnsupportedTypeShape(Seq<char>),
}

impl View for GenError {
    type V = GenErrorV;

    open spec fn view(&self) -> GenErrorV {
        match self {
            GenError::UnsupportedOwnerShape { text } => GenErrorV::UnsupportedOwnerShape(text@),
            GenError::UnsupportedTypeShape { text } => GenErrorV::UnsupportedTypeShape(text@),
        }
    }
}

/// The diagnostic text of an error.
pub open spec fn error_message(e: GenErrorV) -> Seq<char> {
    match e {
        GenErrorV::UnsupportedOwnerShape(t) => "No struct found in target item: "@ + t,
        GenErrorV::UnsupportedTypeShape(t) => "Unsupported FFI type: "@ + t,
    }
}

impl GenError {
    /// The diagnostic that reports this error, naming the offending text.
    pub fn message(&self) -> (r: String)
        ensures
            r@ == error_message(self@),
    {
        match self {
            GenError::UnsupportedOwnerShape { text } => {
                let r = String::from_str("No struct found in target item: ");
                r.concat(text.as_str())
            },
            GenError::UnsupportedTypeShape { text } => {
                let r = String::from_str("Unsupported FFI type: ");
                r.concat(text.as_str())
            },
        }
    }
}

/// The name that a type expression denotes when it is a single identifier:
/// a path of one segment, without leading `::` and without generic arguments.
pub open spec fn plain_name(t: TypeExpr) -> Option<Seq<char>> {
    match t {
        TypeExpr::Path { leading_colon, segments } => {
            if !leading_colon && segments@.len() == 1 && segments@[0].arguments is None {
                Some(segments@[0].ident@)
            } else {
                None
            }
        },
        _ => None,
    }
}

pub open spec fn segment_text(s: PathSegment) -> Seq<char> {
    match s.arguments {
        Some(a) => s.ident@ + a@,
        None => s.ident@,
    }
}

/// The segments of a path joined by `::`.
pub open spec fn segments_text(segs: Seq<PathSegment>) -> Seq<char>
    decreases segs.len(),
{
    if segs.len() == 0 {
        Seq::empty()
    } else if segs.len() == 1 {
        segment_text(segs[0])
    } else {
        segments_text(segs.drop_last()) + "::"@ + segment_text(segs.last())
    }
}

/// The source text of a type expression, as diagnostics quote it.
pub open spec fn type_text(t: TypeExpr) -> Seq<char>
    decreases t,
{
    match t {
        TypeExpr::Path { leading_colon, segments } => {
            if leading_colon {
                "::"@ + segments_text(segments@)
            } else {
                segments_text(segments@)
            }
        },
        TypeExpr::Reference { mutable, elem } => {
            if mutable {
                "&mut "@ + type_text(*elem)
            } else {
                "&"@ + type_text(*elem)
            }
        },
        TypeExpr::Verbatim { text } => text@,
        TypeExpr::Other { text } => text@,
    }
}

/// The type mapper: a plain name maps to itself, a single reference to a
/// plain name maps to a pointer to it (labelled `"<Name> *"`), verbatim tokens
/// pass through, and every other shape is refused with its text.
pub open spec fn map_type(t: TypeExpr) -> Result<MappedTypeV, GenErrorV> {
    match t {
        TypeExpr::Path { .. } => match plain_name(t) {
            Some(n) => Ok(MappedTypeV { kind: FfiKind::Value, base: n, c_type: n }),
            None => Err(GenErrorV::UnsupportedTypeShape(type_text(t))),
        },
        TypeExpr::Reference { elem, .. } => match plain_name(*elem) {
            Some(n) => Ok(MappedTypeV { kind: FfiKind::Pointer, base: n, c_type: n + " *"@ }),
            None => Err(GenErrorV::UnsupportedTypeShape(type_text(t))),
        },
        TypeExpr::Verbatim { text } => Ok(
            MappedTypeV { kind: FfiKind::Verbatim, base: text@, c_type: text@ },
        ),
        TypeExpr::Other { .. } => Err(GenErrorV::UnsupportedTypeShape(type_text(t))),
    }
}

/// Whether an exec mapping result has the given mathematical value.
pub open spec fn mapped_result(r: Result<MappedType, GenError>, v: Result<MappedTypeV, GenErrorV>) -> bool {
    match r {
        Ok(m) => v == Ok::<MappedTypeV, GenErrorV>(m@),
        Err(e) => v == Err::<MappedTypeV, GenErrorV>(e@),
    }
}

fn segment_text_exec(s: &PathSegment) -> (r: String)
    ensures
        r@ == segment_text(*s),
{
    match &s.arguments {
        Some(a) => s.ident.clone().concat(a.as_str()),
        None => s.ident.clone(),
    }
}

fn segments_text_exec(segs: &Vec<PathSegment>) -> (r: String)
    ensures
        r@ == segments_text(segs@),
{
    let mut r = String::new();
    let mut i: usize = 0;
    while i < segs.len()
        invariant
            i <= segs@.len(),
            r@ == segments_text(segs@.take(i as int)),
        decreases segs@.len() - i,
    {
        let part = segment_text_exec(&segs[i]);
        assert(segs@.take(i + 1).drop_last() =~= segs@.take(i as int));
        if i == 0 {
            r = part;
        } else {
            r = r.concat("::");
            r = r.concat(part.as_str());
        }
        i = i + 1;
    }
    assert(segs@.take(segs@.len() as int) =~= segs@);
    r
}

/// The source text of a type expression.
pub fn type_text_exec(t: &TypeExpr) -> (r: String)
    ensures
        r@ == type_text(*t),
    decreases t,
{
    match t {
        TypeExpr::Path { leading_colon, segments } => {
            let body = segments_text_exec(segments);
            if *leading_colon {
                String::from_str("::").concat(body.as_str())
            } else {
                body
            }
        },
        TypeExpr::Reference { mutable, elem } => {
            let inner = type_text_exec(elem);
            let prefix = if *mutable {
                String::from_str("&mut ")
            } else {
                String::from_str("&")
            };
            prefix.concat(inner.as_str())
        },
        TypeExpr::Verbatim { text } => text.clone(),
        TypeExpr::Other { text } => text.clone(),
    }
}

/// The single identifier that a type expression names, if it is one.
pub fn plain_name_exec(t: &TypeExpr) -> (r: Option<String>)
    ensures
        match r {
            Some(n) => plain_name(*t) == Some(n@),
            None => plain_name(*t) is None,
        },
{
    match t {
        TypeExpr::Path { leading_colon, segments } => {
            if !*leading_colon && segments.len() == 1 && segments[0].arguments.is_none() {
                Some(segments[0].ident.clone())
            } else {
                None
            }
        },
        _ => None,
    }
}

/// The native representation of a type expression: its kind and the name
/// (or tokens) it applies to.
pub fn rust_to_ffi_type(t: &TypeExpr) -> (r: Result<(FfiKind, String), GenError>)
    ensures
        match r {
            Ok((k, b)) => map_type(*t) matches Ok(m) && m.kind == k && m.base == b@,
            Err(e) => map_type(*t) == Err::<MappedTypeV, GenErrorV>(e@),
        },
{
    match t {
        TypeExpr::Path { .. } => match plain_name_exec(t) {
            Some(n) => Ok((FfiKind::Value, n)),
            None => Err(GenError::UnsupportedTypeShape { text: type_text_exec(t) }),
        },
        TypeExpr::Reference { elem, .. } => match plain_name_exec(elem) {
            Some(n) => Ok((FfiKind::Pointer, n)),
            None => Err(GenError::UnsupportedTypeShape { text: type_text_exec(t) }),
        },
        TypeExpr::Verbatim { text } => Ok((FfiKind::Verbatim, text.clone())),
        TypeExpr::Other { .. } => Err(GenError::UnsupportedTypeShape { text: type_text_exec(t) }),
    }
}

/// The C type label of a type expression.
pub fn rust_to_c_type(t: &TypeExpr) -> (r: Result<String, GenError>)
    ensures
        match r {
            Ok(c) => map_type(*t) matches Ok(m) && m.c_type == c@,
            Err(e) => map_type(*t) == Err::<MappedTypeV, GenErrorV>(e@),
        },
{
    match t {
        TypeExpr::Path { .. } => match plain_name_exec(t) {
            Some(n) => Ok(n),
            None => Err(GenError::UnsupportedTypeShape { text: type_text_exec(t) }),
        },
        TypeExpr::Reference { elem, .. } => match plain_name_exec(elem) {
            Some(n) => Ok(n.concat(" *")),
            None => Err(GenError::UnsupportedTypeShape { text: type_text_exec(t) }),
        },
        TypeExpr::Verbatim { text } => Ok(text.clone()),
        TypeExpr::Other { .. } => Err(GenError::UnsupportedTypeShape { text: type_text_exec(t) }),
    }
}

/// Maps a source type expression onto its native representation and C label.
pub fn map_type_exec(t: &TypeExpr) -> (r: Result<MappedType, GenError>)
    ensures
        mapped_result(r, map_type(*t)),
{
    let (kind, base) = match rust_to_ffi_type(t) {
        Ok(p) => p,
        Err(e) => return Err(e),
    };
    match rust_to_c_type(t) {
        Ok(c_type) => Ok(MappedType { kind, base, c_type }),
        Err(e) => Err(e),
    }
}

/// A plain type `T` maps to itself, with the C label `T`; a single reference
/// to a plain `T` maps to a pointer to `T`, with the C label `T *`.
pub proof fn lemma_plain_and_reference_labels(t: TypeExpr)
    ensures
        plain_name(t) matches Some(n) ==> map_type(t) == Ok::<MappedTypeV, GenErrorV>(
            MappedTypeV { kind: FfiKind::Value, base: n, c_type: n },
        ),
        t matches TypeExpr::Reference { elem, .. } ==> (plain_name(*elem) matches Some(n)
            ==> map_type(t) == Ok::<MappedTypeV, GenErrorV>(
            MappedTypeV { kind: FfiKind::Pointer, base: n, c_type: n + " *"@ },
        )),
{
}

} // verus!
