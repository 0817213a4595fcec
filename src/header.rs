//! The header emitter: one opaque-handle line per type and one prototype line
//! per operation, collected for the header artifact.
use vstd::prelude::*;
use crate::model::{
    all_args, method_views, return_label, symbol_name, Method, MethodArgV, MethodV, RawDecl, Struct,
};
use crate::plugin::{exported, Plugin};
use crate::types::GenErrorV;

verus! {

/// `typedef void* {name};`
pub open spec fn handle_line(name: Seq<char>) -> Seq<char> {
    "typedef void* "@ + name + ";"@
}

/// `{C label} {name}`
pub open spec fn param_decl(a: MethodArgV) -> Seq<char> {
    a.ty.c_type + " "@ + a.name
}

/// The parameter declarations joined by `, `.
pub open spec fn params_text(args: Seq<MethodArgV>) -> Seq<char>
    decreases args.len(),
{
    if args.len() == 0 {
        Seq::empty()
    } else if args.len() == 1 {
        param_decl(args[0])
    } else {
        params_text(args.drop_last()) + ", "@ + param_decl(args.last())
    }
}

/// `{return label} {Owner}_{name}({params});`
pub open spec fn prototype_line(m: MethodV) -> Seq<char> {
    return_label(m) + " "@ + symbol_name(m) + "("@ + params_text(all_args(m)) + ");"@
}

pub open spec fn prototype_lines(ms: Seq<MethodV>) -> Seq<Seq<char>> {
    ms.map_values(|m: MethodV| prototype_line(m))
}

pub open spec fn line_views(s: Seq<String>) -> Seq<Seq<char>> {
    s.map_values(|l: String| l@)
}

/// The artifact text of a list of lines: each line followed by a newline.
pub open spec fn header_text(lines: Seq<Seq<char>>) -> Seq<char>
    decreases lines.len(),
{
    if lines.len() == 0 {
        Seq::empty()
    } else {
        header_text(lines.drop_last()) + lines.last() + "\n"@
    }
}

/// The header backend. Lines are collected here; the artifact under
/// `output_dir` is only ever appended to, by the caller, with [`contents`].
///
/// [`contents`]: HeaderExporter::contents
pub struct HeaderExporter {
    pub output_dir: String,
    pub lines: Vec<String>,
}

impl HeaderExporter {
    pub fn new(output_dir: &str) -> (r: HeaderExporter)
        ensures
            r.output_dir@ == output_dir@,
            r.lines@.len() == 0,
    {
        HeaderExporter { output_dir: output_dir.to_owned(), lines: Vec::new() }
    }

    /// Adds one line to the header.
    pub fn writeln(&mut self, text: &str)
        ensures
            final(self).output_dir == old(self).output_dir,
            line_views(final(self).lines@) == line_views(old(self).lines@).push(text@),
    {
        let ghost prev = self.lines@;
        self.lines.push(text.to_owned());
        assert(line_views(self.lines@) =~= line_views(prev).push(text@));
    }

    /// The path of the header artifact: `api.h` under the output directory.
    pub fn artifact_path(&self) -> (r: String)
        ensures
            r@ == self.output_dir@ + "/api.h"@,
    {
        self.output_dir.clone().concat("/api.h")
    }

    /// The diagnostic of a failed append to the header artifact, naming its path.
    pub fn write_failure_message(&self) -> (r: String)
        ensures
            r@ == "Failed to write to "@ + self.output_dir@ + "/api.h"@,
    {
        let path = self.artifact_path();
        String::from_str("Failed to write to ").concat(path.as_str())
    }

    /// The text to append to the header artifact.
    pub fn contents(&self) -> (r: String)
        ensures
            r@ == header_text(line_views(self.lines@)),
    {
        let ghost lines = line_views(self.lines@);
        let mut r = String::new();
        let mut i: usize = 0;
        assert(lines.take(0) =~= Seq::<Seq<char>>::empty());
        while i < self.lines.len()
            invariant
                lines == line_views(self.lines@),
                0 <= i <= self.lines@.len(),
                r@ == header_text(lines.take(i as int)),
            decreases self.lines@.len() - i,
        {
            assert(lines.take(i + 1).drop_last() =~= lines.take(i as int));
            r = r.concat(self.lines[i].as_str()).concat("\n");
            i = i + 1;
        }
        assert(lines.take(lines.len() as int) =~= lines);
        r
    }
}

/// The opaque-handle line of a type.
pub fn handle_decl(struct_target: &Struct) -> (r: String)
    ensures
        r@ == handle_line(struct_target@),
{
    String::from_str("typedef void* ").concat(struct_target.id.as_str()).concat(";")
}

/// The prototype line of an operation.
pub fn prototype(m: &Method) -> (r: String)
    ensures
        r@ == prototype_line(m@),
{
    let args = m.exported_args();
    let ghost all = all_args(m@);
    let mut params = String::new();
    let mut i: usize = 0;
    assert(all.take(0) =~= Seq::<MethodArgV>::empty());
    while i < args.len()
        invariant
            all == all_args(m@),
            args@.len() == all.len(),
            forall|j: int|
                0 <= j < args@.len() ==> (#[trigger] args@[j]).0@ == all[j].name && args@[j].1@
                    == all[j].ty.c_type,
            0 <= i <= args@.len(),
            params@ == params_text(all.take(i as int)),
        decreases args@.len() - i,
    {
        assert(all.take(i + 1).drop_last() =~= all.take(i as int));
        assert(all.take(i + 1)[0] == all[0]);
        if i > 0 {
            params = params.concat(", ");
        }
        params = params.concat(args[i].1.as_str()).concat(" ").concat(args[i].0.as_str());
        i = i + 1;
    }
    assert(all.take(all.len() as int) =~= all);
    m.exported_return_type().concat(" ").concat(m.exported_name().as_str()).concat("(").concat(
        params.as_str(),
    ).concat(");")
}

impl Plugin for HeaderExporter {
    open spec fn struct_visited(before: Self, after: Self, t: Seq<char>) -> bool {
        &&& after.output_dir == before.output_dir
        &&& line_views(after.lines@) == line_views(before.lines@).push(handle_line(t))
    }

    open spec fn impl_visited(before: Self, after: Self, ms: Seq<MethodV>) -> bool {
        &&& after.output_dir == before.output_dir
        &&& line_views(after.lines@) == line_views(before.lines@) + prototype_lines(ms)
    }

    fn on_struct(&mut self, struct_target: &Struct) {
        let decl = handle_decl(struct_target);
        self.writeln(decl.as_str());
    }

    fn on_impl(&mut self, impl_target: &Vec<Method>) {
        let ghost start = line_views(self.lines@);
        let ghost ms = method_views(impl_target@);
        let ghost dir = self.output_dir;
        let mut i: usize = 0;
        while i < impl_target.len()
            invariant
                0 <= i <= impl_target@.len(),
                ms == method_views(impl_target@),
                self.output_dir == dir,
                line_views(self.lines@) == start + prototype_lines(ms.take(i as int)),
            decreases impl_target@.len() - i,
        {
            let decl = prototype(&impl_target[i]);
            self.writeln(decl.as_str());
            assert(prototype_lines(ms.take(i + 1)) =~= prototype_lines(ms.take(i as int)).push(
                prototype_line(ms[i as int]),
            ));
            i = i + 1;
        }
        assert(ms.take(ms.len() as int) =~= ms);
    }
}

/// Each type declaration puts exactly one line into the header, its
/// opaque-handle line, after the lines that were there.
pub proof fn lemma_type_gets_one_handle_line(
    ident: String,
    before: HeaderExporter,
    after: HeaderExporter,
    r: Result<(), GenErrorV>,
)
    requires
        exported(RawDecl::Record { ident }, before, after, r),
    ensures
        r is Ok,
        line_views(after.lines@).len() == line_views(before.lines@).len() + 1,
        line_views(after.lines@).drop_last() == line_views(before.lines@),
        line_views(after.lines@).last() == handle_line(ident@),
{
    assert(line_views(after.lines@).drop_last() =~= line_views(before.lines@));
}

} // verus!
