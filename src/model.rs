//! Raw declarations, the in-memory model extracted from them, and the
//! extractor with its method classifier.
use vstd::prelude::*;
use crate::types::{
    map_type, map_type_exec, plain_name, plain_name_exec, type_text, type_text_exec, FfiKind,
    GenError, GenErrorV, MappedType, MappedTypeV, TypeExpr,
};

verus! {

/// One formal parameter of an operation as declared.
pub enum FnInput {
    /// A self receiver (`self`, `&self`, `&mut self`, ...).
    Receiver,
    /// A typed parameter; `pattern` is its name when the pattern is a plain
    /// identifier, and `None` for any other pattern.
    Typed { pattern: Option<String>, ty: TypeExpr },
}

/// One operation as declared: its name, formal parameters and return type.
pub struct RawMethod {
    pub name: String,
    pub inputs: Vec<FnInput>,
    pub output: Option<TypeExpr>,
}

/// One member of an operation collection.
pub enum ImplMember {
    Method(RawMethod),
    /// A constant, an associated type or any other non-operation member.
    Other,
}

/// A raw declaration handed to the generator.
pub enum RawDecl {
    /// A record: yields one type declaration.
    Record { ident: String },
    /// An operation collection for the type `self_ty`.
    Collection { self_ty: TypeExpr, members: Vec<ImplMember> },
    /// Any other declaration shape; skipped.
    Other,
}

/// An exported opaque type.
pub struct Struct {
    pub id: String,
}

impl View for Struct {
    type V = Seq<char>;

    open spec fn view(&self) -> Seq<char> {
        self.id@
    }
}

impl Clone for Struct {
    fn clone(&self) -> (r: Self)
        ensures
            r == *self,
    {
        Struct { id: self.id.clone() }
    }
}

/// A parameter of an exported operation: its name and mapped type.
pub struct MethodArg {
    pub name: String,
    pub ty: MappedType,
}

pub struct MethodArgV {
    pub name: Seq<char>,
    pub ty: MappedTypeV,
}

impl View for MethodArg {
    type V = MethodArgV;

    open spec fn view(&self) -> MethodArgV {
        MethodArgV { name: self.name@, ty: self.ty@ }
    }
}

impl Clone for MethodArg {
    fn clone(&self) -> (r: Self)
        ensures
            r == *self,
    {
        MethodArg { name: self.name.clone(), ty: self.ty.clone() }
    }
}

/// An exported operation of `target`.
///
/// `this` is the synthetic receiver, present exactly when the operation is not
/// static; `args` are the declared parameters that follow the receiver.
pub struct Method {
    pub is_static: bool,
    pub target: Struct,
    pub name: String,
    pub this: Option<MethodArg>,
    pub args: Vec<MethodArg>,
    pub ret: Option<MappedType>,
}

pub struct MethodV {
    pub is_static: bool,
    pub target: Seq<char>,
    pub name: Seq<char>,
    pub this: Option<MethodArgV>,
    pub args: Seq<MethodArgV>,
    pub ret: Option<MappedTypeV>,
}

pub open spec fn arg_views(args: Seq<MethodArg>) -> Seq<MethodArgV> {
    args.map_values(|a: MethodArg| a@)
}

pub open spec fn opt_arg_view(a: Option<MethodArg>) -> Option<MethodArgV> {
    match a {
        Some(x) => Some(x@),
        None => None,
    }
}

pub open spec fn opt_type_view(t: Option<MappedType>) -> Option<MappedTypeV> {
    match t {
        Some(x) => Some(x@),
        None => None,
    }
}

impl View for Method {
    type V = MethodV;

    open spec fn view(&self) -> MethodV {
        MethodV {
            is_static: self.is_static,
            target: self.target@,
            name: self.name@,
            this: opt_arg_view(self.this),
            args: arg_views(self.args@),
            ret: opt_type_view(self.ret),
        }
    }
}

/// What one raw declaration yields.
pub enum Target {
    Struct(Struct),
    Impl(Vec<Method>),
}

pub enum TargetV {
    Struct(Seq<char>),
    Impl(Seq<MethodV>),
}

pub open spec fn method_views(ms: Seq<Method>) -> Seq<MethodV> {
    ms.map_values(|m: Method| m@)
}

impl View for Target {
    type V = TargetV;

    open spec fn view(&self) -> TargetV {
        match self {
            Target::Struct(s) => TargetV::Struct(s@),
            Target::Impl(ms) => TargetV::Impl(method_views(ms@)),
        }
    }
}

/// The synthetic receiver of an instance operation of `owner`: an opaque
/// pointer to the owner, named `this`.
pub open spec fn receiver_arg(owner: Seq<char>) -> MethodArgV {
    MethodArgV {
        name: "this"@,
        ty: MappedTypeV { kind: FfiKind::Pointer, base: owner, c_type: "void*"@ },
    }
}

/// An operation is static when its first formal parameter is not a receiver.
pub open spec fn is_static_spec(m: RawMethod) -> bool {
    !(m.inputs@.len() > 0 && m.inputs@[0] is Receiver)
}

/// The formal parameters that follow the receiver, if any.
pub open spec fn declared_inputs(m: RawMethod) -> Seq<FnInput> {
    if is_static_spec(m) {
        m.inputs@
    } else {
        m.inputs@.skip(1)
    }
}

/// The text of one decimal digit.
pub open spec fn digit_text(d: nat) -> Seq<char> {
    if d == 0 {
        "0"@
    } else if d == 1 {
        "1"@
    } else if d == 2 {
        "2"@
    } else if d == 3 {
        "3"@
    } else if d == 4 {
        "4"@
    } else if d == 5 {
        "5"@
    } else if d == 6 {
        "6"@
    } else if d == 7 {
        "7"@
    } else if d == 8 {
        "8"@
    } else {
        "9"@
    }
}

/// The decimal text of a number.
pub open spec fn decimal(n: nat) -> Seq<char>
    decreases n,
{
    if n < 10 {
        digit_text(n)
    } else {
        decimal(n / 10) + digit_text(n % 10)
    }
}

/// The name given to the declared parameter at position `pos` when its
/// pattern is not a plain identifier: `__arg{pos}`.
pub open spec fn placeholder_name(pos: nat) -> Seq<char> {
    "__arg"@ + decimal(pos)
}

/// The name of a typed parameter at position `pos`: its identifier, or the
/// placeholder name when its pattern is not a plain identifier.
pub open spec fn param_name(pattern: Option<String>, pos: nat) -> Seq<char> {
    match pattern {
        Some(p) => p@,
        None => placeholder_name(pos),
    }
}

/// The parameter that the formal input at position `pos` contributes: none
/// for a receiver; for a typed input, its name with its mapped type, or the
/// mapping failure when its type cannot be mapped.
pub open spec fn input_arg(i: FnInput, pos: nat) -> Option<Result<MethodArgV, GenErrorV>> {
    match i {
        FnInput::Typed { pattern, ty } => match map_type(ty) {
            Ok(t) => Some(Ok(MethodArgV { name: param_name(pattern, pos), ty: t })),
            Err(e) => Some(Err(e)),
        },
        FnInput::Receiver => None,
    }
}

/// The parameters of a list of inputs, in order; the first mapping failure
/// is the result.
pub open spec fn map_inputs(s: Seq<FnInput>) -> Result<Seq<MethodArgV>, GenErrorV>
    decreases s.len(),
{
    if s.len() == 0 {
        Ok(Seq::empty())
    } else {
        match map_inputs(s.drop_last()) {
            Err(e) => Err(e),
            Ok(args) => match input_arg(s.last(), (s.len() - 1) as nat) {
                None => Ok(args),
                Some(Err(e)) => Err(e),
                Some(Ok(a)) => Ok(args.push(a)),
            },
        }
    }
}

pub open spec fn map_output(o: Option<TypeExpr>) -> Result<Option<MappedTypeV>, GenErrorV> {
    match o {
        None => Ok(None),
        Some(t) => match map_type(t) {
            Ok(m) => Ok(Some(m)),
            Err(e) => Err(e),
        },
    }
}

/// The model of one operation of `owner`: parameters are mapped in order,
/// then the return type.
pub open spec fn extract_method(owner: Seq<char>, m: RawMethod) -> Result<MethodV, GenErrorV> {
    match map_inputs(declared_inputs(m)) {
        Err(e) => Err(e),
        Ok(args) => match map_output(m.output) {
            Err(e) => Err(e),
            Ok(ret) => Ok(
                MethodV {
                    is_static: is_static_spec(m),
                    target: owner,
                    name: m.name@,
                    this: if is_static_spec(m) {
                        None
                    } else {
                        Some(receiver_arg(owner))
                    },
                    args,
                    ret,
                },
            ),
        },
    }
}

/// The operations of a collection, in order; the first failure is the result.
pub open spec fn extract_methods(owner: Seq<char>, s: Seq<ImplMember>) -> Result<Seq<MethodV>, GenErrorV>
    decreases s.len(),
{
    if s.len() == 0 {
        Ok(Seq::empty())
    } else {
        match extract_methods(owner, s.drop_last()) {
            Err(e) => Err(e),
            Ok(ms) => match s.last() {
                ImplMember::Method(m) => match extract_method(owner, m) {
                    Ok(mv) => Ok(ms.push(mv)),
                    Err(e) => Err(e),
                },
                ImplMember::Other => Ok(ms),
            },
        }
    }
}

/// What a raw declaration yields: a type for a record, the operations of a
/// collection whose owner is a plain name, nothing for any other shape.
pub open spec fn extract(d: RawDecl) -> Result<Option<TargetV>, GenErrorV> {
    match d {
        RawDecl::Record { ident } => Ok(Some(TargetV::Struct(ident@))),
        RawDecl::Collection { self_ty, members } => match plain_name(self_ty) {
            None => Err(GenErrorV::UnsupportedOwnerShape(type_text(self_ty))),
            Some(owner) => match extract_methods(owner, members@) {
                Ok(ms) => Ok(Some(TargetV::Impl(ms))),
                Err(e) => Err(e),
            },
        },
        RawDecl::Other => Ok(None),
    }
}

/// A model of an operation is well formed when its receiver is present
/// exactly when it is not static, and is then the synthetic receiver.
pub open spec fn method_wf(m: MethodV) -> bool {
    if m.is_static {
        m.this is None
    } else {
        m.this == Some(receiver_arg(m.target))
    }
}

proof fn lemma_map_inputs_err_stays(s: Seq<FnInput>, k: int)
    requires
        0 <= k <= s.len(),
        map_inputs(s.take(k)) is Err,
    ensures
        map_inputs(s) == map_inputs(s.take(k)),
    decreases s.len() - k,
{
    if k == s.len() {
        assert(s.take(k) =~= s);
    } else {
        assert(s.take(k + 1).drop_last() =~= s.take(k));
        lemma_map_inputs_err_stays(s, k + 1);
    }
}

proof fn lemma_extract_methods_err_stays(owner: Seq<char>, s: Seq<ImplMember>, k: int)
    requires
        0 <= k <= s.len(),
        extract_methods(owner, s.take(k)) is Err,
    ensures
        extract_methods(owner, s) == extract_methods(owner, s.take(k)),
    decreases s.len() - k,
{
    if k == s.len() {
        assert(s.take(k) =~= s);
    } else {
        assert(s.take(k + 1).drop_last() =~= s.take(k));
        lemma_extract_methods_err_stays(owner, s, k + 1);
    }
}

impl Struct {
    /// The type declaration named `ident`.
    pub fn new(ident: &str) -> (r: Struct)
        ensures
            r@ == ident@,
    {
        Struct { id: ident.to_owned() }
    }

    /// The name under which the type is exported.
    pub fn exported_name(&self) -> (r: String)
        ensures
            r@ == self@,
    {
        self.id.clone()
    }
}

/// The synthetic receiver of an instance operation of `target`.
pub fn receiver_param(target: &Struct) -> (r: MethodArg)
    ensures
        r@ == receiver_arg(target@),
{
    MethodArg {
        name: String::from_str("this"),
        ty: MappedType {
            kind: FfiKind::Pointer,
            base: target.id.clone(),
            c_type: String::from_str("void*"),
        },
    }
}

fn digit_exec(d: usize) -> (r: &'static str)
    requires
        d < 10,
    ensures
        r@ == digit_text(d as nat),
{
    if d == 0 {
        "0"
    } else if d == 1 {
        "1"
    } else if d == 2 {
        "2"
    } else if d == 3 {
        "3"
    } else if d == 4 {
        "4"
    } else if d == 5 {
        "5"
    } else if d == 6 {
        "6"
    } else if d == 7 {
        "7"
    } else if d == 8 {
        "8"
    } else {
        "9"
    }
}

fn decimal_exec(n: usize) -> (r: String)
    ensures
        r@ == decimal(n as nat),
    decreases n,
{
    if n < 10 {
        String::from_str(digit_exec(n))
    } else {
        decimal_exec(n / 10).concat(digit_exec(n % 10))
    }
}

/// The placeholder name of the declared parameter at position `pos`.
pub fn placeholder_name_exec(pos: usize) -> (r: String)
    ensures
        r@ == placeholder_name(pos as nat),
{
    String::from_str("__arg").concat(decimal_exec(pos).as_str())
}

/// Whether an operation is static: its first formal parameter is not a receiver.
pub fn method_is_static(m: &RawMethod) -> (r: bool)
    ensures
        r == is_static_spec(*m),
{
    if m.inputs.len() > 0 {
        match &m.inputs[0] {
            FnInput::Receiver => false,
            FnInput::Typed { .. } => true,
        }
    } else {
        true
    }
}

/// The name of the type that an operation collection belongs to.
pub fn impl_target(self_ty: &TypeExpr) -> (r: Result<String, GenError>)
    ensures
        match r {
            Ok(n) => plain_name(*self_ty) == Some(n@),
            Err(e) => plain_name(*self_ty) is None && e@ == GenErrorV::UnsupportedOwnerShape(
                type_text(*self_ty),
            ),
        },
{
    match plain_name_exec(self_ty) {
        Some(n) => Ok(n),
        None => Err(GenError::UnsupportedOwnerShape { text: type_text_exec(self_ty) }),
    }
}

impl Method {
    /// Builds the model of the operation `m` of `target`.
    pub fn new(target: &Struct, m: &RawMethod) -> (r: Result<Method, GenError>)
        ensures
            match r {
                Ok(mm) => extract_method(target@, *m) == Ok::<MethodV, GenErrorV>(mm@),
                Err(e) => extract_method(target@, *m) == Err::<MethodV, GenErrorV>(e@),
            },
    {
        let is_static = method_is_static(m);
        let args = match Method::parse_args(m) {
            Ok(a) => a,
            Err(e) => return Err(e),
        };
        let ret = match &m.output {
            None => None,
            Some(t) => match map_type_exec(t) {
                Ok(mt) => Some(mt),
                Err(e) => return Err(e),
            },
        };
        Ok(
            Method {
                is_static,
                target: target.clone(),
                name: m.name.clone(),
                this: Method::parse_this(target, m),
                args,
                ret,
            },
        )
    }

    /// The synthetic receiver of `m`, or `None` when `m` is static.
    fn parse_this(target: &Struct, m: &RawMethod) -> (r: Option<MethodArg>)
        ensures
            opt_arg_view(r) == (if is_static_spec(*m) {
                None
            } else {
                Some(receiver_arg(target@))
            }),
    {
        if method_is_static(m) {
            None
        } else {
            Some(receiver_param(target))
        }
    }

    /// The declared parameters after the receiver, each with its mapped type.
    fn parse_args(m: &RawMethod) -> (r: Result<Vec<MethodArg>, GenError>)
        ensures
            match r {
                Ok(a) => map_inputs(declared_inputs(*m)) == Ok::<Seq<MethodArgV>, GenErrorV>(
                    arg_views(a@),
                ),
                Err(e) => map_inputs(declared_inputs(*m)) == Err::<Seq<MethodArgV>, GenErrorV>(
                    e@,
                ),
            },
    {
        let start: usize = if method_is_static(m) {
            0
        } else {
            1
        };
        let ghost decl = declared_inputs(*m);
        assert(decl =~= m.inputs@.subrange(start as int, m.inputs@.len() as int));
        let mut args: Vec<MethodArg> = Vec::new();
        let mut i: usize = start;
        assert(decl.take(0) =~= Seq::<FnInput>::empty());
        assert(arg_views(args@) =~= Seq::<MethodArgV>::empty());
        while i < m.inputs.len()
            invariant
                start <= i <= m.inputs@.len(),
                decl == declared_inputs(*m),
                decl == m.inputs@.subrange(start as int, m.inputs@.len() as int),
                map_inputs(decl.take(i - start)) == Ok::<Seq<MethodArgV>, GenErrorV>(
                    arg_views(args@),
                ),
            decreases m.inputs@.len() - i,
        {
            let ghost k = i - start;
            assert(decl.take(k + 1).drop_last() =~= decl.take(k));
            assert(decl.take(k + 1).last() == m.inputs@[i as int]);
            match &m.inputs[i] {
                FnInput::Typed { pattern, ty } => {
                    match map_type_exec(ty) {
                        Ok(t) => {
                            let ghost prev = args@;
                            let name = match pattern {
                                Some(p) => p.clone(),
                                None => placeholder_name_exec(i - start),
                            };
                            args.push(MethodArg { name, ty: t });
                            assert(arg_views(args@) =~= arg_views(prev).push(args@.last()@));
                        },
                        Err(e) => {
                            proof {
                                assert(map_inputs(decl.take(k + 1)) == Err::<Seq<MethodArgV>, GenErrorV>(e@));
                                lemma_map_inputs_err_stays(decl, k + 1);
                                assert(decl.take(decl.len() as int) =~= decl);
                            }
                            return Err(e);
                        },
                    }
                },
                FnInput::Receiver => {},
            }
            i = i + 1;
        }
        assert(decl.take(decl.len() as int) =~= decl);
        Ok(args)
    }

    /// The name of the owning type.
    pub fn exported_target_name(&self) -> (r: String)
        ensures
            r@ == self.target@,
    {
        self.target.exported_name()
    }

    /// The exported symbol: `{Owner}_{name}`.
    pub fn exported_name(&self) -> (r: String)
        ensures
            r@ == symbol_name(self@),
    {
        self.target.id.clone().concat("_").concat(self.name.as_str())
    }

    /// The C label of the return type, `void` when nothing is returned.
    pub fn exported_return_type(&self) -> (r: String)
        ensures
            r@ == return_label(self@),
    {
        match &self.ret {
            None => String::from_str("void"),
            Some(t) => t.c_type.clone(),
        }
    }

    /// `(name, C label)` of each exported parameter: the receiver first,
    /// when there is one, then the declared parameters.
    pub fn exported_args(&self) -> (r: Vec<(String, String)>)
        ensures
            r@.len() == all_args(self@).len(),
            forall|i: int|
                0 <= i < r@.len() ==> (#[trigger] r@[i]).0@ == all_args(self@)[i].name && r@[i].1@
                    == all_args(self@)[i].ty.c_type,
    {
        let mut r: Vec<(String, String)> = Vec::new();
        let ghost all = all_args(self@);
        let off: usize = match &self.this {
            Some(t) => {
                r.push((t.name.clone(), t.ty.c_type.clone()));
                1
            },
            None => 0,
        };
        let mut i: usize = 0;
        while i < self.args.len()
            invariant
                all == all_args(self@),
                off == (if self.this is Some { 1usize } else { 0usize }),
                0 <= i <= self.args@.len(),
                r@.len() == off + i,
                all.len() == off + self.args@.len(),
                forall|j: int|
                    0 <= j < r@.len() ==> (#[trigger] r@[j]).0@ == all[j].name && r@[j].1@
                        == all[j].ty.c_type,
            decreases self.args@.len() - i,
        {
            let a = &self.args[i];
            r.push((a.name.clone(), a.ty.c_type.clone()));
            i = i + 1;
        }
        r
    }
}

/// `{Owner}_{name}`: the symbol under which an operation is exported.
pub open spec fn symbol_name(m: MethodV) -> Seq<char> {
    m.target + "_"@ + m.name
}

/// The C label of an operation's return type; `void` when it returns nothing.
pub open spec fn return_label(m: MethodV) -> Seq<char> {
    match m.ret {
        None => "void"@,
        Some(t) => t.c_type,
    }
}

/// The exported parameters of an operation: the receiver, if any, then the
/// declared parameters.
pub open spec fn all_args(m: MethodV) -> Seq<MethodArgV> {
    match m.this {
        Some(t) => seq![t] + m.args,
        None => m.args,
    }
}

/// Extracts the operations of a collection owned by `owner`.
pub fn parse_impl(owner: &Struct, members: &Vec<ImplMember>) -> (r: Result<Vec<Method>, GenError>)
    ensures
        match r {
            Ok(ms) => extract_methods(owner@, members@) == Ok::<Seq<MethodV>, GenErrorV>(
                method_views(ms@),
            ),
            Err(e) => extract_methods(owner@, members@) == Err::<Seq<MethodV>, GenErrorV>(e@),
        },
{
    let mut methods: Vec<Method> = Vec::new();
    let mut i: usize = 0;
    assert(members@.take(0) =~= Seq::<ImplMember>::empty());
    assert(method_views(methods@) =~= Seq::<MethodV>::empty());
    while i < members.len()
        invariant
            0 <= i <= members@.len(),
            extract_methods(owner@, members@.take(i as int)) == Ok::<Seq<MethodV>, GenErrorV>(
                method_views(methods@),
            ),
        decreases members@.len() - i,
    {
        assert(members@.take(i + 1).drop_last() =~= members@.take(i as int));
        assert(members@.take(i + 1).last() == members@[i as int]);
        match &members[i] {
            ImplMember::Method(m) => match Method::new(owner, m) {
                Ok(mm) => {
                    let ghost prev = methods@;
                    methods.push(mm);
                    assert(method_views(methods@) =~= method_views(prev).push(methods@.last()@));
                },
                Err(e) => {
                    proof {
                        lemma_extract_methods_err_stays(owner@, members@, i + 1);
                    }
                    return Err(e);
                },
            },
            ImplMember::Other => {},
        }
        i = i + 1;
    }
    assert(members@.take(members@.len() as int) =~= members@);
    Ok(methods)
}

/// Turns one raw declaration into the model: a type for a record, the
/// operations of a collection, nothing for any other shape.
pub fn parse_target(d: &RawDecl) -> (r: Result<Option<Target>, GenError>)
    ensures
        match r {
            Ok(Some(t)) => extract(*d) == Ok::<Option<TargetV>, GenErrorV>(Some(t@)),
            Ok(None) => extract(*d) == Ok::<Option<TargetV>, GenErrorV>(None),
            Err(e) => extract(*d) == Err::<Option<TargetV>, GenErrorV>(e@),
        },
{
    match d {
        RawDecl::Record { ident } => Ok(Some(Target::Struct(parse_struct(ident)))),
        RawDecl::Collection { self_ty, members } => {
            let owner = match impl_target(self_ty) {
                Ok(n) => Struct { id: n },
                Err(e) => return Err(e),
            };
            match parse_impl(&owner, members) {
                Ok(ms) => Ok(Some(Target::Impl(ms))),
                Err(e) => Err(e),
            }
        },
        RawDecl::Other => Ok(None),
    }
}

/// The type declaration of a record.
fn parse_struct(ident: &String) -> (r: Struct)
    ensures
        r@ == ident@,
{
    Struct { id: ident.clone() }
}

proof fn lemma_map_inputs_sources(s: Seq<FnInput>, args: Seq<MethodArgV>)
    requires
        map_inputs(s) == Ok::<Seq<MethodArgV>, GenErrorV>(args),
    ensures
        forall|k: int|
            0 <= k < args.len() ==> exists|i: int|
                0 <= i < s.len() && #[trigger] input_arg(s[i], i as nat) == Some(
                    Ok::<MethodArgV, GenErrorV>(#[trigger] args[k]),
                ),
    decreases s.len(),
{
    if s.len() > 0 {
        let rest = s.drop_last();
        match map_inputs(rest) {
            Ok(prev) => {
                lemma_map_inputs_sources(rest, prev);
                assert forall|k: int| 0 <= k < args.len() implies exists|i: int|
                    0 <= i < s.len() && #[trigger] input_arg(s[i], i as nat) == Some(
                        Ok::<MethodArgV, GenErrorV>(#[trigger] args[k]),
                    ) by {
                    if k < prev.len() {
                        assert(args[k] == prev[k]);
                        let i = choose|i: int|
                            0 <= i < rest.len() && #[trigger] input_arg(rest[i], i as nat) == Some(
                                Ok::<MethodArgV, GenErrorV>(#[trigger] prev[k]),
                            );
                        assert(s[i] == rest[i]);
                    } else {
                        assert(input_arg(s[s.len() - 1], (s.len() - 1) as nat) == Some(
                            Ok::<MethodArgV, GenErrorV>(args[k]),
                        ));
                    }
                }
            },
            Err(_) => {},
        }
    }
}

/// Parameter and return positions go through the same type mapping: in an
/// extracted operation, the return type is the mapping of the declared one,
/// and each parameter is the one that a declared input gives (its name with
/// the mapping of its declared type).
pub proof fn lemma_same_mapping_in_both_positions(owner: Seq<char>, m: RawMethod, mv: MethodV)
    requires
        extract_method(owner, m) == Ok::<MethodV, GenErrorV>(mv),
    ensures
        m.output is None ==> mv.ret is None,
        m.output matches Some(t) ==> (mv.ret matches Some(r) && map_type(t) == Ok::<
            MappedTypeV,
            GenErrorV,
        >(r)),
        forall|k: int|
            0 <= k < mv.args.len() ==> exists|i: int|
                0 <= i < declared_inputs(m).len() && #[trigger] input_arg(declared_inputs(m)[i], i as nat)
                    == Some(Ok::<MethodArgV, GenErrorV>(#[trigger] mv.args[k])),
{
    lemma_map_inputs_sources(declared_inputs(m), mv.args);
}

/// Every operation extracted from a collection belongs to the collection's
/// owner, and has the synthetic receiver exactly when it is not static.
pub proof fn lemma_extracted_methods_wf(owner: Seq<char>, s: Seq<ImplMember>, ms: Seq<MethodV>)
    requires
        extract_methods(owner, s) == Ok::<Seq<MethodV>, GenErrorV>(ms),
    ensures
        forall|i: int| 0 <= i < ms.len() ==> (#[trigger] ms[i]).target == owner && method_wf(ms[i]),
    decreases s.len(),
{
    if s.len() > 0 {
        match extract_methods(owner, s.drop_last()) {
            Ok(prev) => {
                lemma_extracted_methods_wf(owner, s.drop_last(), prev);
                assert forall|i: int| 0 <= i < ms.len() implies (#[trigger] ms[i]).target == owner
                    && method_wf(ms[i]) by {
                    if i < prev.len() {
                        assert(ms[i] == prev[i]);
                    }
                }
            },
            Err(_) => {},
        }
    }
}

/// Whether a formal input is a typed parameter (whatever its pattern).
pub open spec fn is_typed_input(i: FnInput) -> bool {
    i is Typed
}

/// The name that the typed input at position `pos` gets.
pub open spec fn input_name(i: FnInput, pos: nat) -> Seq<char> {
    match i {
        FnInput::Typed { pattern, .. } => param_name(pattern, pos),
        FnInput::Receiver => Seq::empty(),
    }
}

proof fn lemma_map_typed_inputs(s: Seq<FnInput>, args: Seq<MethodArgV>)
    requires
        map_inputs(s) == Ok::<Seq<MethodArgV>, GenErrorV>(args),
        forall|i: int| 0 <= i < s.len() ==> #[trigger] is_typed_input(s[i]),
    ensures
        args.len() == s.len(),
        forall|i: int|
            0 <= i < s.len() ==> #[trigger] input_arg(s[i], i as nat) == Some(
                Ok::<MethodArgV, GenErrorV>(args[i]),
            ),
    decreases s.len(),
{
    if s.len() > 0 {
        let rest = s.drop_last();
        assert forall|i: int| 0 <= i < rest.len() implies #[trigger] is_typed_input(rest[i]) by {
            assert(rest[i] == s[i]);
            assert(is_typed_input(s[i]));
        }
        assert(is_typed_input(s[s.len() - 1]));
        match map_inputs(rest) {
            Ok(prev) => {
                lemma_map_typed_inputs(rest, prev);
                assert forall|i: int| 0 <= i < s.len() implies #[trigger] input_arg(
                    s[i],
                    i as nat,
                ) == Some(Ok::<MethodArgV, GenErrorV>(args[i])) by {
                    if i < rest.len() {
                        assert(s[i] == rest[i]);
                    }
                }
            },
            Err(_) => {},
        }
    }
}

proof fn lemma_map_inputs_fails_on(s: Seq<FnInput>, i: int)
    requires
        0 <= i < s.len(),
        input_arg(s[i], i as nat) matches Some(Err(_)),
    ensures
        map_inputs(s) is Err,
    decreases s.len(),
{
    let rest = s.drop_last();
    if i < s.len() - 1 {
        assert(rest[i] == s[i]);
        lemma_map_inputs_fails_on(rest, i);
    }
}

/// The type of every declared parameter is mapped, whatever its pattern: when
/// one of them cannot be mapped, extraction of the operation fails, with a
/// type error (the first in declared order).
pub proof fn lemma_unmappable_param_fails(owner: Seq<char>, m: RawMethod, i: int)
    requires
        0 <= i < declared_inputs(m).len(),
        declared_inputs(m)[i] matches FnInput::Typed { ty, .. } && map_type(ty) is Err,
    ensures
        extract_method(owner, m) matches Err(GenErrorV::UnsupportedTypeShape(_)),
{
    let s = declared_inputs(m);
    lemma_map_inputs_fails_on(s, i);
    lemma_map_inputs_error_kind(s);
}

proof fn lemma_map_inputs_error_kind(s: Seq<FnInput>)
    ensures
        map_inputs(s) matches Err(e) ==> e is UnsupportedTypeShape,
    decreases s.len(),
{
    if s.len() > 0 {
        lemma_map_inputs_error_kind(s.drop_last());
    }
}

/// A static operation whose formal parameters are all typed gets no receiver
/// and keeps every declared parameter, once each, in declared order, named by
/// its identifier (or its placeholder name when its pattern is not one).
pub proof fn lemma_static_params_in_declared_order(owner: Seq<char>, m: RawMethod, mv: MethodV)
    requires
        extract_method(owner, m) == Ok::<MethodV, GenErrorV>(mv),
        is_static_spec(m),
        forall|i: int| 0 <= i < m.inputs@.len() ==> #[trigger] is_typed_input(m.inputs@[i]),
    ensures
        mv.is_static,
        mv.this is None,
        mv.args.len() == m.inputs@.len(),
        forall|i: int|
            0 <= i < m.inputs@.len() ==> #[trigger] mv.args[i].name == input_name(
                m.inputs@[i],
                i as nat,
            ),
{
    lemma_map_typed_inputs(m.inputs@, mv.args);
    assert forall|i: int| 0 <= i < m.inputs@.len() implies #[trigger] mv.args[i].name == input_name(
        m.inputs@[i],
        i as nat,
    ) by {
        assert(input_arg(m.inputs@[i], i as nat) == Some(Ok::<MethodArgV, GenErrorV>(mv.args[i])));
    }
}

/// In an operation whose declared parameters are all typed, the `i`-th
/// declared parameter `p: T` becomes the parameter `p` passed as `T` and
/// labelled `T`, and `p: &T` (or `&mut T`) becomes `p` passed as a pointer to
/// `T` and labelled `T *`, for every plain name `T`.
pub proof fn lemma_param_labels(owner: Seq<char>, m: RawMethod, mv: MethodV, i: int)
    requires
        extract_method(owner, m) == Ok::<MethodV, GenErrorV>(mv),
        forall|k: int|
            0 <= k < declared_inputs(m).len() ==> #[trigger] is_typed_input(declared_inputs(m)[k]),
        0 <= i < declared_inputs(m).len(),
    ensures
        i < mv.args.len(),
        mv.args[i].name == input_name(declared_inputs(m)[i], i as nat),
        declared_inputs(m)[i] matches FnInput::Typed { ty, .. } ==> (plain_name(ty) matches Some(n)
            ==> mv.args[i].ty == (MappedTypeV { kind: FfiKind::Value, base: n, c_type: n })),
        declared_inputs(m)[i] matches FnInput::Typed { ty: TypeExpr::Reference { elem, .. }, .. }
            ==> (plain_name(*elem) matches Some(n) ==> mv.args[i].ty == (MappedTypeV {
            kind: FfiKind::Pointer,
            base: n,
            c_type: n + " *"@,
        })),
{
    lemma_map_typed_inputs(declared_inputs(m), mv.args);
    assert(input_arg(declared_inputs(m)[i], i as nat) == Some(
        Ok::<MethodArgV, GenErrorV>(mv.args[i]),
    ));
}

} // verus!
