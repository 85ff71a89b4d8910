//! The crate that `spin` generates for a tag: where it lives, how it is
//! built, and what its two source files hold.
use vstd::prelude::*;
use crate::compile::CompilationStatus;
use crate::db::DbMap;
use crate::spin::{prim_names, union_views, SpinInputs, UnionInput, UnionView};
use crate::tag::CrateTag;
use crate::text::{decimal, spec_decimal};

verus! {

/// `rel` appended to the path `base` as a further component: directly when
/// `base` is empty or ends with a separator, after a `/` otherwise.
pub open spec fn spec_join(base: Seq<char>, rel: Seq<char>) -> Seq<char> {
    if base.len() == 0 || base.last() == '/' {
        base + rel
    } else {
        base + seq!['/'] + rel
    }
}

/// Appends the relative path `rel` to the path `base`, as `Path::join` does
/// on Unix.
pub fn join_path(base: &str, rel: &str) -> (r: String)
    ensures
        r@ == spec_join(base@, rel@),
{
    let n = base.unicode_len();
    let mut r = String::from_str(base);
    if n > 0 && base.get_char(n - 1) != '/' {
        r.append("/");
        proof {
            reveal_strlit("/");
        }
    }
    r.append(rel);
    r
}

/// The directory of the type database under the build directory `target`.
pub open spec fn spec_db_dir(target: Seq<char>) -> Seq<char> {
    target + "/spindle/db/"@
}

/// The directory of the type database under the build directory `target`.
pub fn db_dir(target: &str) -> (r: String)
    ensures
        r@ == spec_db_dir(target@),
{
    String::from_str(target).concat("/spindle/db/")
}

/// The home of the crate generated for the tag named `tag` under the build
/// directory `target`.
pub open spec fn spec_home(target: Seq<char>, tag: Seq<char>) -> Seq<char> {
    spec_join(target + "/spindle/crates/"@, tag)
}

/// The crate generated for a tag: its home directory, the maps recorded under
/// the tag, the tag and the unions the maps work on.
#[derive(Debug, Clone)]
pub struct SpindleCrate {
    pub home: String,
    pub maps: Vec<DbMap>,
    pub tag: CrateTag,
    pub unions: Vec<UnionInput>,
}

/// A step of building the generated crate with cargo.
#[derive(Debug, Clone, Copy, PartialEq, Eq, Structural)]
pub enum CargoStep {
    /// Format the sources.
    Fmt,
    /// Build in release mode, with colored output.
    Build,
    /// Build in release mode, without colors.
    BuildColorless,
}

/// The arguments of `cargo` for a step on the crate at `home`.
pub open spec fn spec_cargo_args(home: Seq<char>, step: CargoStep) -> Seq<Seq<char>> {
    let common = seq!["+nightly"@, "-Z"@, "unstable-options"@, "-C"@, home];
    match step {
        CargoStep::Fmt => common.push("fmt"@),
        CargoStep::Build => common + seq!["build"@, "--release"@],
        CargoStep::BuildColorless => common + seq!["build"@, "--release"@, "--color"@, "never"@],
    }
}

/// The views of a list of strings.
pub open spec fn string_views(v: Seq<String>) -> Seq<Seq<char>> {
    v.map_values(|s: String| s@)
}

/// The path of the kernel the build writes, under the crate's home.
pub open spec fn spec_kernel_path(home: Seq<char>) -> Seq<char> {
    spec_join(
        spec_join(spec_join(spec_join(home, "target"@), "nvptx64-nvidia-cuda"@), "release"@),
        "kernel.ptx"@,
    )
}

/// The name of a union input.
pub open spec fn union_name(u: UnionView) -> Seq<char> {
    match u {
        UnionView::New(name, _) => name,
        UnionView::InScope(name) => name,
    }
}

/// The kernel that `lib.rs` defines for a map: it applies the map, named
/// `map_ident`, to each element of a slice of the union; the kernel is named
/// `kernel_ident`.
#[derive(Debug, Clone)]
pub struct MapKernel {
    pub kernel_ident: String,
    pub map_ident: String,
}

/// What `lib.rs` of the generated crate holds besides its fixed preamble:
/// one kernel per map, each over slices of the one union.
#[derive(Debug, Clone)]
pub struct LibRs {
    pub union_ident: String,
    pub kernels: Vec<MapKernel>,
}

/// What `device.rs` of the generated crate holds: the maps' source texts, the
/// union with its fields (name and type, fixed to `_0: i32` and `_1: f64`),
/// and one method on the union per map, named after the map.
#[derive(Debug, Clone)]
pub struct DeviceRs {
    pub map_contents: Vec<String>,
    pub union_ident: String,
    pub union_fields: Vec<(String, String)>,
    pub methods: Vec<String>,
}

/// The definition of a union given by its primitive types: `#[repr(C)]`
/// fields `_0`, `_1`, ... of those types, and a conversion for each type.
#[derive(Debug, Clone)]
pub struct UnionDef {
    pub ident: String,
    pub fields: Vec<(String, String)>,
    pub raw_converts: Vec<String>,
}

/// The name of the `i`-th field of a union: `_i`.
pub open spec fn spec_field_name(i: nat) -> Seq<char> {
    seq!['_'] + spec_decimal(i)
}

/// The name of the `i`-th field of a union.
pub fn field_name(i: usize) -> (r: String)
    ensures
        r@ == spec_field_name(i as nat),
{
    proof {
        reveal_strlit("_");
    }
    String::from_str("_").concat(decimal(i).as_str())
}

/// The name and type of each field, by their views.
pub open spec fn field_views(v: Seq<(String, String)>) -> Seq<(Seq<char>, Seq<char>)> {
    v.map_values(|f: (String, String)| (f.0@, f.1@))
}

impl UnionInput {
    /// The union's name.
    pub fn name(&self) -> (r: &String)
        ensures
            r@ == union_name(self.view()),
    {
        match self {
            UnionInput::New(ident, _) => &ident.0,
            UnionInput::InScope(ident) => &ident.0,
        }
    }

    /// The definition to emit for the union: one for a union defined from
    /// primitive types, none for a union already in scope.
    pub fn union_def(&self) -> (r: Option<UnionDef>)
        ensures
            r is Some <==> self.view() is New,
            r matches Some(d) ==> {
                let (name, prims) = match self.view() {
                    UnionView::New(n, p) => (n, p),
                    UnionView::InScope(n) => (n, Seq::empty()),
                };
                &&& d.ident@ == name
                &&& field_views(d.fields@) == Seq::new(
                    prims.len(),
                    |i: int| (spec_field_name(i as nat), prims[i]),
                )
                &&& string_views(d.raw_converts@) == prims
            },
    {
        match self {
            UnionInput::New(ident, fields) => {
                let mut entries: Vec<(String, String)> = Vec::new();
                let mut converts: Vec<String> = Vec::new();
                let ghost prims = prim_names(fields@);
                let mut i: usize = 0;
                while i < fields.len()
                    invariant
                        i <= fields@.len(),
                        prims == prim_names(fields@),
                        field_views(entries@) == Seq::new(
                            i as nat,
                            |j: int| (spec_field_name(j as nat), prims[j]),
                        ),
                        string_views(converts@) == prims.take(i as int),
                    decreases fields@.len() - i,
                {
                    let ty = fields[i].0.clone();
                    let ty2 = fields[i].0.clone();
                    let ghost before = entries@;
                    let ghost cbefore = converts@;
                    entries.push((field_name(i), ty));
                    converts.push(ty2);
                    assert(field_views(entries@) =~= Seq::new(
                        (i + 1) as nat,
                        |j: int| (spec_field_name(j as nat), prims[j]),
                    )) by {
                        assert(field_views(entries@) =~= field_views(before).push(
                            (spec_field_name(i as nat), prims[i as int]),
                        ));
                    }
                    assert(string_views(converts@) =~= prims.take(i + 1)) by {
                        assert(string_views(converts@) =~= string_views(cbefore).push(prims[i as int]));
                    }
                    i = i + 1;
                }
                assert(prims.take(fields@.len() as int) =~= prims);
                Some(UnionDef { ident: ident.0.clone(), fields: entries, raw_converts: converts })
            },
            UnionInput::InScope(_) => None,
        }
    }
}

/// The names of the maps, in order.
pub open spec fn map_idents(maps: Seq<DbMap>) -> Seq<Seq<char>> {
    maps.map_values(|m: DbMap| m.ident@)
}

/// The source texts of the maps, in order.
pub open spec fn map_contents(maps: Seq<DbMap>) -> Seq<Seq<char>> {
    maps.map_values(|m: DbMap| m.content@)
}

/// The name of the kernel for the map named `map`: `map_kernel`.
pub open spec fn spec_kernel_ident(map: Seq<char>) -> Seq<char> {
    map + "_kernel"@
}

impl SpindleCrate {
    /// The crate for the `spin` input, with the maps recorded under its tag;
    /// its home is `crates/<tag>` under `spindle` in the build directory
    /// `target`.
    pub fn new(inputs: SpinInputs, target: &str, maps: Vec<DbMap>) -> (c: SpindleCrate)
        ensures
            c.home@ == spec_home(target@, inputs.tag.name()),
            c.maps@ == maps@,
            c.tag.name() == inputs.tag.name(),
            union_views(c.unions@) == union_views(inputs.unions@),
    {
        let SpinInputs { tag, unions } = inputs;
        let base = String::from_str(target).concat("/spindle/crates/");
        let home = join_path(base.as_str(), tag.0.0.as_str());
        SpindleCrate { home, maps, tag, unions }
    }

    /// The path `rel` under the crate's home.
    pub fn home_join(&self, rel: &str) -> (r: String)
        ensures
            r@ == spec_join(self.home@, rel@),
    {
        join_path(self.home.as_str(), rel)
    }

    /// The path of the kernel the build writes:
    /// `target/nvptx64-nvidia-cuda/release/kernel.ptx` under the home.
    pub fn ptx_path(&self) -> (r: String)
        ensures
            r@ == spec_kernel_path(self.home@),
    {
        let a = join_path(self.home.as_str(), "target");
        let b = join_path(a.as_str(), "nvptx64-nvidia-cuda");
        let c = join_path(b.as_str(), "release");
        join_path(c.as_str(), "kernel.ptx")
    }

    /// The arguments of `cargo` for a step of the build, run on the home.
    pub fn cargo_args(&self, step: CargoStep) -> (r: Vec<String>)
        ensures
            string_views(r@) == spec_cargo_args(self.home@, step),
    {
        let mut args: Vec<String> = Vec::new();
        args.push(String::from_str("+nightly"));
        args.push(String::from_str("-Z"));
        args.push(String::from_str("unstable-options"));
        args.push(String::from_str("-C"));
        args.push(self.home.clone());
        match step {
            CargoStep::Fmt => {
                args.push(String::from_str("fmt"));
            },
            CargoStep::Build => {
                args.push(String::from_str("build"));
                args.push(String::from_str("--release"));
            },
            CargoStep::BuildColorless => {
                args.push(String::from_str("build"));
                args.push(String::from_str("--release"));
                args.push(String::from_str("--color"));
                args.push(String::from_str("never"));
            },
        }
        assert(string_views(args@) =~= spec_cargo_args(self.home@, step));
        args
    }

    /// What `lib.rs` holds: a kernel `<map>_kernel` for each map, in order,
    /// each over slices of the crate's one union.
    pub fn lib_rs(&self) -> (r: LibRs)
        requires
            self.unions@.len() == 1,
        ensures
            r.union_ident@ == union_name(self.unions@[0].view()),
            r.kernels@.len() == self.maps@.len(),
            forall|i: int|
                0 <= i < self.maps@.len() ==> {
                    &&& (#[trigger] r.kernels@[i]).map_ident@ == self.maps@[i].ident@
                    &&& r.kernels@[i].kernel_ident@ == spec_kernel_ident(self.maps@[i].ident@)
                },
    {
        let union_ident = self.unions[0].name().clone();
        let mut kernels: Vec<MapKernel> = Vec::new();
        let mut i: usize = 0;
        while i < self.maps.len()
            invariant
                i <= self.maps@.len(),
                kernels@.len() == i,
                forall|j: int|
                    0 <= j < i ==> {
                        &&& (#[trigger] kernels@[j]).map_ident@ == self.maps@[j].ident@
                        &&& kernels@[j].kernel_ident@ == spec_kernel_ident(self.maps@[j].ident@)
                    },
            decreases self.maps@.len() - i,
        {
            let map_ident = self.maps[i].ident.clone();
            let kernel_ident = self.maps[i].ident.clone().concat("_kernel");
            kernels.push(MapKernel { kernel_ident, map_ident });
            i = i + 1;
        }
        LibRs { union_ident, kernels }
    }

    /// What `device.rs` holds: each map's source text, the crate's one union
    /// with the fields `_0: i32` and `_1: f64`, and a method per map named
    /// after it, in order. The union's fields are these two whatever
    /// primitive types the union was declared with, as the generator has
    /// always written them (its one example union is `i32 | f64`).
    pub fn device_rs(&self) -> (r: DeviceRs)
        requires
            self.unions@.len() == 1,
        ensures
            r.union_ident@ == union_name(self.unions@[0].view()),
            string_views(r.map_contents@) == map_contents(self.maps@),
            string_views(r.methods@) == map_idents(self.maps@),
            field_views(r.union_fields@) == seq![("_0"@, "i32"@), ("_1"@, "f64"@)],
    {
        let union_ident = self.unions[0].name().clone();
        let mut contents: Vec<String> = Vec::new();
        let mut methods: Vec<String> = Vec::new();
        let mut i: usize = 0;
        while i < self.maps.len()
            invariant
                i <= self.maps@.len(),
                string_views(contents@) == map_contents(self.maps@).take(i as int),
                string_views(methods@) == map_idents(self.maps@).take(i as int),
            decreases self.maps@.len() - i,
        {
            let ghost cb = contents@;
            let ghost mb = methods@;
            contents.push(self.maps[i].content.clone());
            methods.push(self.maps[i].ident.clone());
            assert(string_views(contents@) =~= map_contents(self.maps@).take(i + 1)) by {
                assert(string_views(contents@) =~= string_views(cb).push(self.maps@[i as int].content@));
            }
            assert(string_views(methods@) =~= map_idents(self.maps@).take(i + 1)) by {
                assert(string_views(methods@) =~= string_views(mb).push(self.maps@[i as int].ident@));
            }
            i = i + 1;
        }
        assert(map_contents(self.maps@).take(self.maps@.len() as int) =~= map_contents(self.maps@));
        assert(map_idents(self.maps@).take(self.maps@.len() as int) =~= map_idents(self.maps@));
        let mut union_fields: Vec<(String, String)> = Vec::new();
        union_fields.push((String::from_str("_0"), String::from_str("i32")));
        union_fields.push((String::from_str("_1"), String::from_str("f64")));
        assert(field_views(union_fields@) =~= seq![("_0"@, "i32"@), ("_1"@, "f64"@)]);
        DeviceRs { map_contents: contents, union_ident, union_fields, methods }
    }
}

impl CompilationStatus {
    /// The error `spin` reports for the build: the colorless output when the
    /// build failed, nothing when it succeeded.
    pub fn failure_message(&self) -> (r: Option<&String>)
        ensures
            r is None <==> self.succeeded(),
            r matches Some(m) ==> m@ == self.colorless(),
    {
        match self {
            CompilationStatus::Failed { colorless_output, .. } => Some(colorless_output),
            CompilationStatus::Succeeded { .. } => None,
        }
    }
}

/// The crate generated for a tag lives at `<target>/spindle/crates/<tag>`
/// under the build directory `target`.
pub proof fn law_home_layout(target: Seq<char>, tag: Seq<char>)
    ensures
        spec_home(target, tag) == target + "/spindle/crates/"@ + tag,
{
    reveal_strlit("/spindle/crates/");
    let base = target + "/spindle/crates/"@;
    assert(base.last() == '/');
}

/// The kernel of a crate whose home is a non-empty path that does not end
/// with a separator lies at `<home>/target/nvptx64-nvidia-cuda/release/kernel.ptx`.
pub proof fn law_ptx_path_layout(home: Seq<char>)
    requires
        home.len() > 0,
        home.last() != '/',
    ensures
        spec_kernel_path(home) == home + "/target/nvptx64-nvidia-cuda/release/kernel.ptx"@,
{
    reveal_strlit("target");
    reveal_strlit("nvptx64-nvidia-cuda");
    reveal_strlit("release");
    reveal_strlit("kernel.ptx");
    reveal_strlit("/target/nvptx64-nvidia-cuda/release/kernel.ptx");
    let a = home + seq!['/'] + "target"@;
    let b = a + seq!['/'] + "nvptx64-nvidia-cuda"@;
    let c = b + seq!['/'] + "release"@;
    assert(spec_join(home, "target"@) == a);
    assert(a.last() == 't');
    assert(spec_join(a, "nvptx64-nvidia-cuda"@) == b);
    assert(b.last() == 'a');
    assert(spec_join(b, "release"@) == c);
    assert(c.last() == 'e');
    assert(c + seq!['/'] + "kernel.ptx"@ =~= home + "/target/nvptx64-nvidia-cuda/release/kernel.ptx"@);
}

/// The kernel of the crate generated for a tag lies at
/// `<target>/spindle/crates/<tag>/target/nvptx64-nvidia-cuda/release/kernel.ptx`,
/// for a non-empty tag name that does not end with a separator.
pub proof fn law_crate_kernel_layout(target: Seq<char>, tag: Seq<char>)
    requires
        tag.len() > 0,
        tag.last() != '/',
    ensures
        spec_kernel_path(spec_home(target, tag)) == target + "/spindle/crates/"@ + tag
            + "/target/nvptx64-nvidia-cuda/release/kernel.ptx"@,
{
    law_home_layout(target, tag);
    let home = target + "/spindle/crates/"@ + tag;
    assert(home.last() == tag.last());
    law_ptx_path_layout(home);
}

/// Where an output of the build comes from.
#[derive(Debug, Clone, Copy, PartialEq, Eq, Structural)]
pub enum OutputSource {
    /// The file of an earlier build's output is read.
    Cached,
    /// The crate is built and the output written to that file.
    Build,
}

/// What reading the build's status involves: writing and formatting the
/// crate when its home does not exist yet, then each output (colored, then
/// colorless) read from its file when that exists and built otherwise.
#[derive(Debug, Clone, Copy, PartialEq, Eq, Structural)]
pub struct StatusPlan {
    pub populate: bool,
    pub colored: OutputSource,
    pub colorless: OutputSource,
}

/// The source of an output whose file exists or not.
pub open spec fn spec_output_source(cached: bool) -> OutputSource {
    if cached {
        OutputSource::Cached
    } else {
        OutputSource::Build
    }
}

/// The plan for reading the status of a crate: populate and format it
/// exactly when its home does not exist; read each output from its file
/// exactly when the file exists, build it otherwise. A crate just written has
/// no output files yet.
pub fn status_plan(home_exists: bool, colored_cached: bool, colorless_cached: bool) -> (p: StatusPlan)
    ensures
        p.populate == !home_exists,
        p.colored == spec_output_source(home_exists && colored_cached),
        p.colorless == spec_output_source(home_exists && colorless_cached),
{
    let colored = if home_exists && colored_cached { OutputSource::Cached } else { OutputSource::Build };
    let colorless = if home_exists && colorless_cached { OutputSource::Cached } else { OutputSource::Build };
    StatusPlan { populate: !home_exists, colored, colorless }
}

} // verus!
