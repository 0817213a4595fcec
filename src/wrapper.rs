//! The native wrapper emitter: for each operation, the C-ABI entry point that
//! relays to it, described as data.
use vstd::prelude::*;
use crate::model::{
    arg_views, method_views, opt_type_view, receiver_arg, receiver_param, symbol_name, Method, MethodArg,
    MethodArgV, MethodV, RawDecl, Struct,
};
use crate::plugin::{exported, Plugin};
use crate::types::{FfiKind, GenErrorV, MappedType, MappedTypeV};

verus! {

/// A null check on a pointer parameter: a null value aborts the call with
/// `message` before anything else happens.
pub struct NullGuard {
    pub param: String,
    pub message: String,
}

pub struct NullGuardV {
    pub param: Seq<char>,
    pub message: Seq<char>,
}

impl View for NullGuard {
    type V = NullGuardV;

    open spec fn view(&self) -> NullGuardV {
        NullGuardV { param: self.param@, message: self.message@ }
    }
}

/// An argument handed to the relayed operation: the parameter `name`, either
/// as it came (`deref` false) or, for a pointer parameter, as a reference to
/// its pointee once its null check has passed (`deref` true).
pub struct Forward {
    pub name: String,
    pub deref: bool,
}

pub struct ForwardV {
    pub name: Seq<char>,
    pub deref: bool,
}

impl View for Forward {
    type V = ForwardV;

    open spec fn view(&self) -> ForwardV {
        ForwardV { name: self.name@, deref: self.deref }
    }
}

pub open spec fn forward_views(s: Seq<Forward>) -> Seq<ForwardV> {
    s.map_values(|f: Forward| f@)
}

/// How a declared parameter is forwarded: pointer parameters are
/// dereferenced (after their check), every other one is passed unchanged.
pub open spec fn forward_of(a: MethodArgV) -> ForwardV {
    ForwardV { name: a.name, deref: a.ty.kind == FfiKind::Pointer }
}

/// The forwarded arguments: one per declared parameter, in declared order.
pub open spec fn forwards(args: Seq<MethodArgV>) -> Seq<ForwardV> {
    args.map_values(|a: MethodArgV| forward_of(a))
}

/// What an entry point does once its checks have passed.
pub enum Call {
    /// Calls `owner::method` (on the receiver when `on_receiver`) with the
    /// forwarded arguments in order, returning its result if there is one.
    Relay { owner: String, method: String, on_receiver: bool, args: Vec<Forward> },
    /// Releases the instance behind the receiver through the owner's teardown.
    Release,
}

pub enum CallV {
    Relay { owner: Seq<char>, method: Seq<char>, on_receiver: bool, args: Seq<ForwardV> },
    Release,
}

impl View for Call {
    type V = CallV;

    open spec fn view(&self) -> CallV {
        match self {
            Call::Relay { owner, method, on_receiver, args } => CallV::Relay {
                owner: owner@,
                method: method@,
                on_receiver: *on_receiver,
                args: forward_views(args@),
            },
            Call::Release => CallV::Release,
        }
    }
}

/// One C-ABI entry point: its symbol, parameter list and return type, the
/// null checks it runs at entry, in order, and then its call.
pub struct ExportedFn {
    pub symbol: String,
    pub params: Vec<MethodArg>,
    pub ret: Option<MappedType>,
    pub guards: Vec<NullGuard>,
    pub call: Call,
}

pub struct ExportedFnV {
    pub symbol: Seq<char>,
    pub params: Seq<MethodArgV>,
    pub ret: Option<MappedTypeV>,
    pub guards: Seq<NullGuardV>,
    pub call: CallV,
}

pub open spec fn guard_views(s: Seq<NullGuard>) -> Seq<NullGuardV> {
    s.map_values(|g: NullGuard| g@)
}

impl View for ExportedFn {
    type V = ExportedFnV;

    open spec fn view(&self) -> ExportedFnV {
        ExportedFnV {
            symbol: self.symbol@,
            params: arg_views(self.params@),
            ret: opt_type_view(self.ret),
            guards: guard_views(self.guards@),
            call: self.call@,
        }
    }
}

/// The check on the receiver of an instance operation.
pub open spec fn self_guard() -> NullGuardV {
    NullGuardV { param: "this"@, message: "NULL self provided"@ }
}

/// The check on a pointer parameter, whose message names it.
pub open spec fn arg_guard(name: Seq<char>) -> NullGuardV {
    NullGuardV { param: name, message: "NULL provided for "@ + name }
}

/// One check per pointer-typed parameter, in declared order.
pub open spec fn pointer_guards(args: Seq<MethodArgV>) -> Seq<NullGuardV>
    decreases args.len(),
{
    if args.len() == 0 {
        Seq::empty()
    } else if args.last().ty.kind == FfiKind::Pointer {
        pointer_guards(args.drop_last()).push(arg_guard(args.last().name))
    } else {
        pointer_guards(args.drop_last())
    }
}

/// An operation routed to destructor emission: non-static and named `drop`.
pub open spec fn is_destructor(m: MethodV) -> bool {
    !m.is_static && m.name == "drop"@
}

/// The entry point emitted for one operation.
///
/// A static operation takes its parameters as declared; an instance
/// operation takes the receiver pointer first and checks it for null. Both
/// then check every pointer parameter for null, in declared order, and call
/// the operation (on the receiver, for an instance operation) with every
/// declared parameter: pointer parameters as references to their pointees,
/// the others unchanged. A destructor checks the receiver and releases the
/// instance.
pub open spec fn wrapper_of(m: MethodV) -> ExportedFnV {
    if m.is_static {
        ExportedFnV {
            symbol: symbol_name(m),
            params: m.args,
            ret: m.ret,
            guards: pointer_guards(m.args),
            call: CallV::Relay {
                owner: m.target,
                method: m.name,
                on_receiver: false,
                args: forwards(m.args),
            },
        }
    } else if is_destructor(m) {
        ExportedFnV {
            symbol: symbol_name(m),
            params: seq![receiver_arg(m.target)] + m.args,
            ret: None,
            guards: seq![self_guard()],
            call: CallV::Release,
        }
    } else {
        ExportedFnV {
            symbol: symbol_name(m),
            params: seq![receiver_arg(m.target)] + m.args,
            ret: m.ret,
            guards: seq![self_guard()] + pointer_guards(m.args),
            call: CallV::Relay {
                owner: m.target,
                method: m.name,
                on_receiver: true,
                args: forwards(m.args),
            },
        }
    }
}

/// An item of the native output.
pub enum NativeItem {
    /// A type exported as an opaque handle (laid out as C, never described).
    Handle(String),
    Function(ExportedFn),
}

pub enum NativeItemV {
    Handle(Seq<char>),
    Function(ExportedFnV),
}

impl View for NativeItem {
    type V = NativeItemV;

    open spec fn view(&self) -> NativeItemV {
        match self {
            NativeItem::Handle(n) => NativeItemV::Handle(n@),
            NativeItem::Function(f) => NativeItemV::Function(f@),
        }
    }
}

pub open spec fn item_views(s: Seq<NativeItem>) -> Seq<NativeItemV> {
    s.map_values(|i: NativeItem| i@)
}

/// The native items for a list of operations: one entry point each, in order.
pub open spec fn impl_items(ms: Seq<MethodV>) -> Seq<NativeItemV> {
    ms.map_values(|m: MethodV| NativeItemV::Function(wrapper_of(m)))
}

/// The parameter list of the entry point: the receiver pointer first for an
/// instance operation, then the declared parameters.
pub fn export_rust_args(m: &Method) -> (r: Vec<MethodArg>)
    ensures
        arg_views(r@) == (if m@.is_static {
            m@.args
        } else {
            seq![receiver_arg(m@.target)] + m@.args
        }),
{
    let mut r: Vec<MethodArg> = Vec::new();
    if !m.is_static {
        r.push(receiver_param(&m.target));
    }
    let ghost off: int = r@.len() as int;
    let mut i: usize = 0;
    while i < m.args.len()
        invariant
            0 <= i <= m.args@.len(),
            off == (if m.is_static { 0int } else { 1int }),
            r@.len() == off + i,
            !m.is_static ==> r@[0]@ == receiver_arg(m@.target),
            forall|j: int| 0 <= j < i ==> (#[trigger] r@[off + j])@ == m.args@[j]@,
        decreases m.args@.len() - i,
    {
        r.push(m.args[i].clone());
        i = i + 1;
    }
    if m.is_static {
        assert(arg_views(r@) =~= m@.args) by {
            assert forall|j: int| 0 <= j < r@.len() implies arg_views(r@)[j] == m@.args[j] by {
                assert(r@[0 + j]@ == m.args@[j]@);
            }
        }
    } else {
        assert(arg_views(r@) =~= seq![receiver_arg(m@.target)] + m@.args) by {
            assert forall|j: int| 1 <= j < r@.len() implies arg_views(r@)[j] == m@.args[j - 1] by {
                assert(r@[1 + (j - 1)]@ == m.args@[j - 1]@);
            }
        }
    }
    r
}

/// The arguments forwarded to the relayed operation: every declared
/// parameter, in order; a pointer parameter is forwarded as a dereference that
/// its null check (`export_null_guards`) guards, any other one unchanged.
pub fn export_rust_arg_refs(m: &Method) -> (r: Vec<Forward>)
    ensures
        forward_views(r@) == forwards(m@.args),
{
    let mut r: Vec<Forward> = Vec::new();
    let mut i: usize = 0;
    while i < m.args.len()
        invariant
            0 <= i <= m.args@.len(),
            forward_views(r@) == forwards(m@.args.take(i as int)),
        decreases m.args@.len() - i,
    {
        let ghost prev = r@;
        let a = &m.args[i];
        r.push(Forward { name: a.name.clone(), deref: a.ty.kind == FfiKind::Pointer });
        assert(forward_views(r@) =~= forward_views(prev).push(r@.last()@));
        assert(forwards(m@.args.take(i + 1)) =~= forwards(m@.args.take(i as int)).push(
            forward_of(m@.args[i as int]),
        ));
        i = i + 1;
    }
    assert(m@.args.take(m@.args.len() as int) =~= m@.args);
    r
}

/// The null checks of the pointer-typed declared parameters, in order.
pub fn export_null_guards(m: &Method) -> (r: Vec<NullGuard>)
    ensures
        guard_views(r@) == pointer_guards(m@.args),
{
    let mut r: Vec<NullGuard> = Vec::new();
    let mut i: usize = 0;
    assert(guard_views(r@) =~= Seq::<NullGuardV>::empty());
    while i < m.args.len()
        invariant
            0 <= i <= m.args@.len(),
            guard_views(r@) == pointer_guards(m@.args.take(i as int)),
        decreases m.args@.len() - i,
    {
        let a = &m.args[i];
        assert(m@.args.take(i + 1).drop_last() =~= m@.args.take(i as int));
        if a.ty.kind == FfiKind::Pointer {
            let ghost prev = r@;
            let message = String::from_str("NULL provided for ").concat(a.name.as_str());
            r.push(NullGuard { param: a.name.clone(), message });
            assert(guard_views(r@) =~= guard_views(prev).push(r@.last()@));
        }
        i = i + 1;
    }
    assert(m@.args.take(m@.args.len() as int) =~= m@.args);
    r
}

/// The return type that the entry point declares.
pub fn export_return_type(m: &Method) -> (r: Option<MappedType>)
    ensures
        opt_type_view(r) == m@.ret,
{
    match &m.ret {
        Some(t) => Some(t.clone()),
        None => None,
    }
}

fn relay_call(m: &Method, on_receiver: bool) -> (r: Call)
    ensures
        r@ == (CallV::Relay {
            owner: m@.target,
            method: m@.name,
            on_receiver,
            args: forwards(m@.args),
        }),
{
    Call::Relay {
        owner: m.target.id.clone(),
        method: m.name.clone(),
        on_receiver,
        args: export_rust_arg_refs(m),
    }
}

/// The entry point of a static operation.
pub fn export_static_method(m: &Method) -> (r: ExportedFn)
    requires
        m.is_static,
    ensures
        r@ == wrapper_of(m@),
{
    let r = ExportedFn {
        symbol: m.exported_name(),
        params: export_rust_args(m),
        ret: export_return_type(m),
        guards: export_null_guards(m),
        call: relay_call(m, false),
    };
    r
}

/// The entry point of an instance operation, or of a destructor when the
/// operation is named `drop`.
pub fn export_self_method(m: &Method) -> (r: ExportedFn)
    requires
        !m.is_static,
    ensures
        r@ == wrapper_of(m@),
{
    let drop_name = String::from_str("drop");
    if m.name == drop_name {
        return export_drop_method(m);
    }
    let mut guards: Vec<NullGuard> = Vec::new();
    guards.push(this_guard());
    let ghost first = guards@;
    let mut rest = export_null_guards(m);
    let ghost rest_v = rest@;
    guards.append(&mut rest);
    assert(guard_views(guards@) =~= guard_views(first) + guard_views(rest_v));
    assert(guard_views(first) =~= seq![self_guard()]);
    ExportedFn {
        symbol: m.exported_name(),
        params: export_rust_args(m),
        ret: export_return_type(m),
        guards,
        call: relay_call(m, true),
    }
}

/// The entry point of a destructor: the receiver is checked, then released.
pub fn export_drop_method(m: &Method) -> (r: ExportedFn)
    requires
        !m.is_static,
        m@.name == "drop"@,
    ensures
        r@ == wrapper_of(m@),
{
    let mut guards: Vec<NullGuard> = Vec::new();
    guards.push(this_guard());
    assert(guard_views(guards@) =~= seq![self_guard()]);
    ExportedFn {
        symbol: m.exported_name(),
        params: export_rust_args(m),
        ret: None,
        guards,
        call: Call::Release,
    }
}

fn this_guard() -> (r: NullGuard)
    ensures
        r@ == self_guard(),
{
    NullGuard { param: String::from_str("this"), message: String::from_str("NULL self provided") }
}

/// The entry point of one operation.
pub fn export_method(m: &Method) -> (r: ExportedFn)
    ensures
        r@ == wrapper_of(m@),
{
    if m.is_static {
        export_static_method(m)
    } else {
        export_self_method(m)
    }
}

/// The entry points of a list of operations, in order.
pub fn export_impl(methods: &Vec<Method>) -> (r: Vec<ExportedFn>)
    ensures
        r@.len() == methods@.len(),
        forall|i: int| 0 <= i < r@.len() ==> (#[trigger] r@[i])@ == wrapper_of(methods@[i]@),
{
    let mut r: Vec<ExportedFn> = Vec::new();
    let mut i: usize = 0;
    while i < methods.len()
        invariant
            0 <= i <= methods@.len(),
            r@.len() == i,
            forall|j: int| 0 <= j < i ==> (#[trigger] r@[j])@ == wrapper_of(methods@[j]@),
        decreases methods@.len() - i,
    {
        r.push(export_method(&methods[i]));
        i = i + 1;
    }
    r
}

/// The native backend: collects the items emitted for each declaration.
pub struct NativeExporter {
    pub items: Vec<NativeItem>,
}

impl NativeExporter {
    pub fn new() -> (r: NativeExporter)
        ensures
            r.items@.len() == 0,
    {
        NativeExporter { items: Vec::new() }
    }
}

impl Plugin for NativeExporter {
    open spec fn struct_visited(before: Self, after: Self, t: Seq<char>) -> bool {
        item_views(after.items@) == item_views(before.items@).push(NativeItemV::Handle(t))
    }

    open spec fn impl_visited(before: Self, after: Self, ms: Seq<MethodV>) -> bool {
        item_views(after.items@) == item_views(before.items@) + impl_items(ms)
    }

    fn on_struct(&mut self, struct_target: &Struct) {
        let ghost prev = self.items@;
        self.items.push(export_struct(struct_target));
        assert(item_views(self.items@) =~= item_views(prev).push(self.items@.last()@));
    }

    fn on_impl(&mut self, impl_target: &Vec<Method>) {
        let ghost start = item_views(self.items@);
        let ghost ms = method_views(impl_target@);
        let mut i: usize = 0;
        while i < impl_target.len()
            invariant
                0 <= i <= impl_target@.len(),
                ms == method_views(impl_target@),
                item_views(self.items@) == start + impl_items(ms.take(i as int)),
            decreases impl_target@.len() - i,
        {
            let ghost prev = self.items@;
            self.items.push(NativeItem::Function(export_method(&impl_target[i])));
            assert(item_views(self.items@) =~= item_views(prev).push(self.items@.last()@));
            assert(impl_items(ms.take(i + 1)) =~= impl_items(ms.take(i as int)).push(
                NativeItemV::Function(wrapper_of(ms[i as int])),
            ));
            i = i + 1;
        }
        assert(ms.take(ms.len() as int) =~= ms);
    }
}

/// The native item of a type declaration: its opaque handle.
pub fn export_struct(struct_target: &Struct) -> (r: NativeItem)
    ensures
        r@ == NativeItemV::Handle(struct_target@),
{
    NativeItem::Handle(struct_target.exported_name())
}

/// Whether `t` occurs in `s` as a contiguous run.
pub open spec fn contains_text(s: Seq<char>, t: Seq<char>) -> bool {
    exists|k: int| 0 <= k && k + t.len() <= s.len() && #[trigger] s.subrange(k, k + t.len()) == t
}

/// The entry point of every non-static operation other than `drop` takes the
/// receiver pointer as its first parameter, checks it for null first, with
/// the message "NULL self provided", and only then calls the operation on it.
pub proof fn lemma_instance_wrapper_checks_receiver(m: MethodV)
    requires
        !m.is_static,
        !is_destructor(m),
    ensures
        wrapper_of(m).params.len() >= 1,
        wrapper_of(m).params[0] == receiver_arg(m.target),
        wrapper_of(m).params[0].ty.kind == FfiKind::Pointer,
        wrapper_of(m).guards.len() >= 1,
        wrapper_of(m).guards[0].param == "this"@,
        contains_text(wrapper_of(m).guards[0].message, "NULL self provided"@),
        wrapper_of(m).call matches CallV::Relay { on_receiver, .. } && on_receiver,
{
    let msg = wrapper_of(m).guards[0].message;
    let t = "NULL self provided"@;
    assert(msg == t);
    assert(msg.subrange(0, 0int + t.len()) =~= t);
}

proof fn lemma_pointer_guards_cover(args: Seq<MethodArgV>, i: int)
    requires
        0 <= i < args.len(),
        args[i].ty.kind == FfiKind::Pointer,
    ensures
        exists|j: int|
            0 <= j < pointer_guards(args).len() && #[trigger] pointer_guards(args)[j] == arg_guard(
                args[i].name,
            ),
    decreases args.len(),
{
    let g = pointer_guards(args);
    if i == args.len() - 1 {
        assert(g[g.len() - 1] == arg_guard(args[i].name));
    } else {
        let rest = args.drop_last();
        assert(rest[i] == args[i]);
        lemma_pointer_guards_cover(rest, i);
        let j = choose|j: int|
            0 <= j < pointer_guards(rest).len() && #[trigger] pointer_guards(rest)[j] == arg_guard(
                rest[i].name,
            );
        assert(g[j] == arg_guard(args[i].name));
    }
}

/// In the entry point of every operation other than a destructor, static or
/// not, every pointer-typed (reference) parameter is checked for null by a
/// check whose message names it, and only then forwarded, dereferenced, to
/// the relayed operation.
pub proof fn lemma_pointer_params_checked(m: MethodV, i: int)
    requires
        !is_destructor(m),
        0 <= i < m.args.len(),
        m.args[i].ty.kind == FfiKind::Pointer,
    ensures
        exists|j: int|
            0 <= j < wrapper_of(m).guards.len() && (#[trigger] wrapper_of(m).guards[j]).param
                == m.args[i].name && contains_text(wrapper_of(m).guards[j].message, m.args[i].name),
        wrapper_of(m).call matches CallV::Relay { args, .. } && args.len() == m.args.len()
            && args[i] == (ForwardV { name: m.args[i].name, deref: true }),
{
    let w = wrapper_of(m);
    lemma_pointer_guards_cover(m.args, i);
    let k = choose|k: int|
        0 <= k < pointer_guards(m.args).len() && #[trigger] pointer_guards(m.args)[k] == arg_guard(
            m.args[i].name,
        );
    let j = if m.is_static {
        k
    } else {
        k + 1
    };
    assert(w.guards[j] == arg_guard(m.args[i].name));
    let prefix = "NULL provided for "@;
    let name = m.args[i].name;
    assert((prefix + name).subrange(prefix.len() as int, (prefix.len() + name.len()) as int) =~= name);
    assert(contains_text(w.guards[j].message, name));
}

/// The entry point of a static operation has no receiver: its parameters are
/// the declared ones, its only checks are those of the pointer parameters, and
/// it forwards every declared parameter once, in declared order (pointer
/// parameters as references to their pointees, the others unchanged).
pub proof fn lemma_static_wrapper_forwards(m: MethodV)
    requires
        m.is_static,
    ensures
        wrapper_of(m).params == m.args,
        wrapper_of(m).guards == pointer_guards(m.args),
        wrapper_of(m).call == (CallV::Relay {
            owner: m.target,
            method: m.name,
            on_receiver: false,
            args: forwards(m.args),
        }),
        forwards(m.args).len() == m.args.len(),
        forall|i: int|
            0 <= i < m.args.len() ==> #[trigger] forwards(m.args)[i] == (ForwardV {
                name: m.args[i].name,
                deref: m.args[i].ty.kind == FfiKind::Pointer,
            }),
{
}

/// Extracting and emitting the same declaration twice, from the same state of
/// the native backend, gives identical entry points and the same outcome.
pub proof fn lemma_wrapper_emission_idempotent(
    d: RawDecl,
    start: NativeExporter,
    first: NativeExporter,
    second: NativeExporter,
    r1: Result<(), GenErrorV>,
    r2: Result<(), GenErrorV>,
)
    requires
        exported(d, start, first, r1),
        exported(d, start, second, r2),
    ensures
        item_views(first.items@) == item_views(second.items@),
        r1 == r2,
{
}

} // verus!
