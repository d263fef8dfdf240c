//! The triggers of the corpus. Each one reproduces a single defect against
//! the instrumentation of its execution context: what the defect does to
//! memory, to the lock or to a computed value is what the probe records.

use vstd::prelude::*;
use vstd::string::*;
use crate::a::{
    buffer_request, check_int_overflow, check_resource_exhaustion, reservation_fits,
    spec_buffer_fits, spec_reservation_fits, ELEMENTS_PER_UNIT,
};
use crate::ieee::{float_eq, is_nan, lemma_sentinel_is_nan, spec_float_eq, NAN_SENTINEL};
use crate::paths::{join_path, leaves_root, spec_parent_at};
use crate::probe::{
    spec_acquire, spec_bump, spec_deref_foreign, spec_read, spec_request, Artifacts, Block, Probe,
    ProbeView, Stop,
};
use crate::taxonomy::SignalKind;

verus! {

/// The handle of a trigger, with the arguments that the corpus fixes for it.
#[derive(Clone, Copy, PartialEq, Eq, Structural, Debug)]
pub enum Trigger {
    ConstPathJoin,
    DoubleFree,
    DoubleLock,
    Flm1,
    Flm2,
    CompareToNan { bits: u32 },
    Fml1,
    Fml2,
    Fml3 { consume: bool },
    Fml4,
    IntOverflow { units: usize },
    ResourceExhaustion { additional: usize },
    NullToCFunc,
    NullReturnFromCFunc,
    NullableArg,
    Shadowing,
    Uaf1,
    Uaf2,
    Uaf3,
    AbsPathInJoin,
    RuntimePathValue,
}

/// What a trigger hands back when it returns.
#[derive(Clone, Debug, PartialEq, Eq)]
pub enum Value {
    Flag(bool),
    Number(u32),
    Text(String),
}

/// How a trigger ended: with a value, or without one, or stopped before it returned.
pub type Yield = Result<Option<Value>, Stop>;

/// The payload of the blocks that stand for the text `A`.
pub const TEXT_A: u32 = 65;

/// The payload of the blocks that stand for the text `Hello`.
pub const TEXT_HELLO: u32 = 1;

/// The payload of the blocks that stand for the text `World`.
pub const TEXT_WORLD: u32 = 2;

/// A probe after one more block was allocated and, where `live` is false, released.
pub open spec fn spec_with_block(p: ProbeView, live: bool, stashed: bool, value: u32) -> ProbeView {
    ProbeView { blocks: p.blocks.push(Block { live, stashed, value }), ..p }
}

/// A probe after an access to a released block was counted.
pub open spec fn spec_poisoned(p: ProbeView) -> ProbeView {
    ProbeView {
        artifacts: Artifacts {
            poisoned_accesses: spec_bump(p.artifacts.poisoned_accesses),
            ..p.artifacts
        },
        ..p
    }
}

/// A probe after a reference that outlived its block was counted.
pub open spec fn spec_escaped(p: ProbeView) -> ProbeView {
    ProbeView {
        artifacts: Artifacts {
            escaped_references: spec_bump(p.artifacts.escaped_references),
            ..p.artifacts
        },
        ..p
    }
}

/// A probe after a comparison with a not-a-number operand was counted.
pub open spec fn spec_compared(p: ProbeView) -> ProbeView {
    ProbeView {
        artifacts: Artifacts {
            nan_comparisons: spec_bump(p.artifacts.nan_comparisons),
            ..p.artifacts
        },
        ..p
    }
}

/// A probe after the second release of a block was counted.
pub open spec fn spec_double_released(p: ProbeView) -> ProbeView {
    ProbeView {
        artifacts: Artifacts {
            double_releases: spec_bump(p.artifacts.double_releases),
            ..p.artifacts
        },
        ..p
    }
}

/// The stop of a context that made an invalid memory access.
pub open spec fn spec_fault() -> Stop {
    Stop::Crashed(SignalKind::SegmentationFault)
}

/// Two owners of one block: the block is released when either goes out of
/// scope, so it is released twice, and the second release aborts the context.
pub fn check_double_free(probe: &mut Probe) -> (r: Yield)
    ensures
        r == Err::<Option<Value>, Stop>(Stop::Crashed(SignalKind::InvalidFree)),
        final(probe)@ == spec_double_released(spec_with_block(old(probe)@, false, false, TEXT_A)),
{
    let owner = probe.allocate(TEXT_A);
    let duplicate = owner;
    match probe.read(duplicate) {
        Ok(_) => {},
        Err(stop) => {
            return Err(stop);
        },
    }
    match probe.release(duplicate) {
        Ok(()) => {},
        Err(stop) => {
            return Err(stop);
        },
    }
    assert(probe@.blocks =~= spec_with_block(old(probe)@, false, false, TEXT_A).blocks);
    match probe.release(owner) {
        Ok(()) => Ok(None),
        Err(stop) => Err(stop),
    }
}

/// A structure that holds a reference without the lifetime of what it refers to.
#[derive(Clone, Copy, Debug, PartialEq, Eq)]
pub struct ConstStringData {
    pub x: usize,
    pub y: &'static str,
}

/// Stores a reference to block `arg` in a structure that may outlive the block.
pub fn bar(probe: &mut Probe, arg: usize) -> (data: ConstStringData)
    ensures
        data.x == arg,
        data.y@ == "sss"@,
        arg < old(probe)@.blocks.len() ==> final(probe)@ == (ProbeView {
            blocks: old(probe)@.blocks.update(
                arg as int,
                Block { stashed: true, ..old(probe)@.blocks[arg as int] },
            ),
            ..old(probe)@
        }),
        arg >= old(probe)@.blocks.len() ==> final(probe)@ == old(probe)@,
{
    probe.stash(arg);
    ConstStringData { x: arg, y: "sss" }
}

/// A reference escapes into a structure, its block is released, and the
/// structure is read: the read hits a released block.
pub fn check_flm_1(probe: &mut Probe) -> (r: Yield)
    ensures
        r == Err::<Option<Value>, Stop>(spec_fault()),
        final(probe)@ == spec_poisoned(
            spec_escaped(spec_with_block(old(probe)@, false, true, TEXT_HELLO)),
        ),
{
    let v = probe.allocate(TEXT_HELLO);
    let bar_obj = bar(probe, v);
    match probe.release(v) {
        Ok(()) => {},
        Err(stop) => {
            return Err(stop);
        },
    }
    assert(probe@.blocks =~= spec_with_block(old(probe)@, false, true, TEXT_HELLO).blocks);
    match probe.read(bar_obj.x) {
        Ok(text) => Ok(Some(Value::Number(text))),
        Err(stop) => Err(stop),
    }
}

/// A structure that holds a mutable reference without the lifetime of what it refers to.
#[derive(Clone, Copy, Debug, PartialEq, Eq)]
pub struct MutStringData {
    pub x: usize,
    pub y: &'static str,
}

/// Stores a reference to block `s` in `d`, which may outlive the block.
pub fn baz(probe: &mut Probe, s: usize, d: &mut MutStringData)
    ensures
        final(d).x == s,
        final(d).y == old(d).y,
        s < old(probe)@.blocks.len() ==> final(probe)@ == (ProbeView {
            blocks: old(probe)@.blocks.update(
                s as int,
                Block { stashed: true, ..old(probe)@.blocks[s as int] },
            ),
            ..old(probe)@
        }),
        s >= old(probe)@.blocks.len() ==> final(probe)@ == old(probe)@,
{
    d.x = s;
    probe.stash(s);
}

/// A reference to a block of an inner scope is stored in a structure of the
/// outer scope; the inner scope ends, and the structure is read.
pub fn check_flm_2(probe: &mut Probe) -> (r: Yield)
    ensures
        r == Err::<Option<Value>, Stop>(spec_fault()),
        final(probe)@ == spec_poisoned(
            spec_escaped(
                spec_with_block(
                    spec_with_block(old(probe)@, true, false, TEXT_HELLO),
                    false,
                    true,
                    TEXT_WORLD,
                ),
            ),
        ),
{
    let initial = probe.allocate(TEXT_HELLO);
    let mut data = MutStringData { x: initial, y: "Demo" };
    let v = probe.allocate(TEXT_WORLD);
    baz(probe, v, &mut data);
    match probe.release(v) {
        Ok(()) => {},
        Err(stop) => {
            return Err(stop);
        },
    }
    assert(probe@.blocks =~= spec_with_block(
        spec_with_block(old(probe)@, true, false, TEXT_HELLO),
        false,
        true,
        TEXT_WORLD,
    ).blocks);
    match probe.read(data.x) {
        Ok(text) => Ok(Some(Value::Number(text))),
        Err(stop) => Err(stop),
    }
}

/// The payload of the blocks that hold the leaked datum.
pub const LEAKED_DATUM: u32 = 5;

/// The payload of the blocks that hold the contained datum.
pub const CONTAINED_DATUM: u32 = 57;

/// A block is allocated and written by hand, and nothing ever releases it.
pub fn check_fml_1(probe: &mut Probe) -> (r: Yield)
    ensures
        r == Ok::<Option<Value>, Stop>(None),
        final(probe)@ == spec_with_block(old(probe)@, true, false, LEAKED_DATUM),
{
    let _ptr = probe.allocate(LEAKED_DATUM);
    Ok(None)
}

/// Allocates a block and gives up its ownership: the handle that comes back
/// is all that is left of it.
pub fn get_ptr_to_fml_data(probe: &mut Probe) -> (ptr: usize)
    ensures
        ptr == old(probe)@.blocks.len(),
        final(probe)@ == spec_with_block(old(probe)@, true, false, LEAKED_DATUM),
{
    probe.allocate(LEAKED_DATUM)
}

/// A block whose ownership was given up is dropped on the floor.
pub fn check_fml_2(probe: &mut Probe) -> (r: Yield)
    ensures
        r == Ok::<Option<Value>, Stop>(None),
        final(probe)@ == spec_with_block(old(probe)@, true, false, LEAKED_DATUM),
{
    let _ptr = get_ptr_to_fml_data(probe);
    Ok(None)
}

/// A block whose cleanup is switched off is cleaned up only where `f` holds:
/// there its datum is handed back, elsewhere the block stays live.
pub fn check_fml_3(probe: &mut Probe, f: bool) -> (r: Yield)
    ensures
        f ==> r == Ok::<Option<Value>, Stop>(Some(Value::Number(CONTAINED_DATUM))),
        !f ==> r == Ok::<Option<Value>, Stop>(None),
        final(probe)@ == spec_with_block(old(probe)@, !f, false, CONTAINED_DATUM),
{
    let c = probe.allocate(CONTAINED_DATUM);
    if f {
        let datum = match probe.read(c) {
            Ok(datum) => datum,
            Err(stop) => {
                return Err(stop);
            },
        };
        match probe.release(c) {
            Ok(()) => {},
            Err(stop) => {
                return Err(stop);
            },
        }
        assert(probe@.blocks =~= spec_with_block(old(probe)@, false, false, CONTAINED_DATUM).blocks);
        Ok(Some(Value::Number(datum)))
    } else {
        Ok(None)
    }
}

/// A block is forgotten: its cleanup never runs.
pub fn check_fml_4(probe: &mut Probe) -> (r: Yield)
    ensures
        r == Ok::<Option<Value>, Stop>(None),
        final(probe)@ == spec_with_block(old(probe)@, true, false, CONTAINED_DATUM),
{
    let _c = probe.allocate(CONTAINED_DATUM);
    Ok(None)
}

/// Reads the text in block `s`.
pub fn print_string(probe: &mut Probe, s: usize) -> (r: Result<u32, Stop>)
    ensures
        r == spec_read(old(probe)@, s).1,
        final(probe)@ == spec_read(old(probe)@, s).0,
{
    probe.read(s)
}

/// Hands out a reference to a temporary: the block is released before the
/// handle comes back.
pub fn get_const_string(probe: &mut Probe) -> (d: usize)
    ensures
        d == old(probe)@.blocks.len(),
        final(probe)@ == spec_with_block(old(probe)@, false, false, TEXT_HELLO),
{
    let d = probe.allocate(TEXT_HELLO);
    let released = probe.release(d);
    assert(released is Ok);
    assert(probe@.blocks =~= spec_with_block(old(probe)@, false, false, TEXT_HELLO).blocks);
    d
}

/// A reference to a temporary is read after the temporary is gone.
pub fn check_uaf_1(probe: &mut Probe) -> (r: Yield)
    ensures
        r == Err::<Option<Value>, Stop>(spec_fault()),
        final(probe)@ == spec_poisoned(spec_with_block(old(probe)@, false, false, TEXT_HELLO)),
{
    let d = get_const_string(probe);
    match print_string(probe, d) {
        Ok(text) => Ok(Some(Value::Number(text))),
        Err(stop) => Err(stop),
    }
}

/// The owner of a text.
pub struct MyBox {
    pub x: usize,
}

/// A structure that holds a raw reference to a text.
pub struct Uaf2Data {
    pub x: usize,
}

/// Takes the text in block `s` over.
pub fn use_string(probe: &mut Probe, s: usize) -> (r: Result<u32, Stop>)
    ensures
        r == spec_read(old(probe)@, s).1,
        final(probe)@ == spec_read(old(probe)@, s).0,
{
    probe.read(s)
}

/// A raw reference into an owner of an inner scope is read after the scope ended.
pub fn check_uaf_2(probe: &mut Probe) -> (r: Yield)
    ensures
        r == Err::<Option<Value>, Stop>(spec_fault()),
        final(probe)@ == spec_poisoned(spec_with_block(old(probe)@, false, false, TEXT_HELLO)),
{
    let mb = MyBox { x: probe.allocate(TEXT_HELLO) };
    let data = Uaf2Data { x: mb.x };
    match probe.release(mb.x) {
        Ok(()) => {},
        Err(stop) => {
            return Err(stop);
        },
    }
    assert(probe@.blocks =~= spec_with_block(old(probe)@, false, false, TEXT_HELLO).blocks);
    match use_string(probe, data.x) {
        Ok(text) => Ok(Some(Value::Number(text))),
        Err(stop) => Err(stop),
    }
}

/// A structure that holds a raw mutable reference to a text.
pub struct Uaf3Data {
    pub x: usize,
}

/// A raw mutable reference into an owner of an inner scope is read after the scope ended.
pub fn check_uaf_3(probe: &mut Probe) -> (r: Yield)
    ensures
        r == Err::<Option<Value>, Stop>(spec_fault()),
        final(probe)@ == spec_poisoned(spec_with_block(old(probe)@, false, false, TEXT_HELLO)),
{
    let mb = MyBox { x: probe.allocate(TEXT_HELLO) };
    let data = Uaf3Data { x: mb.x };
    match probe.release(mb.x) {
        Ok(()) => {},
        Err(stop) => {
            return Err(stop);
        },
    }
    assert(probe@.blocks =~= spec_with_block(old(probe)@, false, false, TEXT_HELLO).blocks);
    match use_string(probe, data.x) {
        Ok(text) => Ok(Some(Value::Number(text))),
        Err(stop) => Err(stop),
    }
}

/// A probe after the dereference of a null reference was counted.
pub open spec fn spec_null_dereferenced(p: ProbeView) -> ProbeView {
    ProbeView {
        artifacts: Artifacts {
            null_dereferences: spec_bump(p.artifacts.null_dereferences),
            ..p.artifacts
        },
        ..p
    }
}

/// A foreign copy routine is handed a null destination and writes through it.
pub fn check_null_to_c_func(probe: &mut Probe) -> (r: Yield)
    ensures
        r == Err::<Option<Value>, Stop>(spec_fault()),
        final(probe)@ == spec_null_dereferenced(
            spec_with_block(old(probe)@, true, false, TEXT_HELLO),
        ),
{
    let _src = probe.allocate(TEXT_HELLO);
    let dest: Option<usize> = None;
    match probe.deref_foreign(dest) {
        Ok(_) => Ok(None),
        Err(stop) => Err(stop),
    }
}

/// The foreign routine that answers with a null reference where `flag` is
/// zero, and with a reference to a fresh text elsewhere.
pub fn maybe_null(probe: &mut Probe, flag: i32) -> (reference: Option<usize>)
    ensures
        flag == 0 ==> reference.is_none() && final(probe)@ == old(probe)@,
        flag != 0 ==> reference == Some(old(probe)@.blocks.len() as usize) && final(probe)@
            == spec_with_block(old(probe)@, true, false, TEXT_HELLO),
{
    if flag == 0 {
        None
    } else {
        Some(probe.allocate(TEXT_HELLO))
    }
}

/// What a foreign routine returned is read without a look at it, and it is null.
pub fn check_null_return_from_c_func(probe: &mut Probe) -> (r: Yield)
    ensures
        r == Err::<Option<Value>, Stop>(spec_fault()),
        final(probe)@ == spec_null_dereferenced(old(probe)@),
{
    let ptr = maybe_null(probe, 0);
    match probe.deref_foreign(ptr) {
        Ok(text) => Ok(Some(Value::Number(text))),
        Err(stop) => Err(stop),
    }
}

/// A reference that a foreign caller handed over is read without a look at it.
pub fn check_nullable_arg(probe: &mut Probe, msg: Option<usize>) -> (r: Yield)
    ensures
        final(probe)@ == spec_deref_foreign(old(probe)@, msg).0,
        match spec_deref_foreign(old(probe)@, msg).1 {
            Ok(text) => r == Ok::<Option<Value>, Stop>(Some(Value::Number(text))),
            Err(stop) => r == Err::<Option<Value>, Stop>(stop),
        },
{
    match probe.deref_foreign(msg) {
        Ok(text) => Ok(Some(Value::Number(text))),
        Err(stop) => Err(stop),
    }
}

/// The datum that the lock guards.
pub const GUARDED_DATUM: u32 = 10;

/// What `check_double_lock` makes of a probe, and whether it returns.
pub open spec fn spec_double_lock(p: ProbeView) -> (ProbeView, Option<Stop>) {
    let (first, got_first) = spec_acquire(p);
    if got_first is Err {
        (first, Some(Stop::Blocked))
    } else {
        let (second, got_second) = spec_acquire(first);
        if got_second is Err {
            (second, Some(Stop::Blocked))
        } else {
            (
                ProbeView {
                    depth: if second.depth >= 2 {
                        (second.depth - 2) as u32
                    } else {
                        0
                    },
                    ..second
                },
                None,
            )
        }
    }
}

/// The lock is acquired while the first hold on it is still alive. Under a
/// lock that is not reentrant the context blocks for ever; under a
/// reentrant one the guarded datum is incremented and handed back.
pub fn check_double_lock(probe: &mut Probe) -> (r: Yield)
    ensures
        final(probe)@ == spec_double_lock(old(probe)@).0,
        match spec_double_lock(old(probe)@).1 {
            Some(stop) => r == Err::<Option<Value>, Stop>(stop),
            None => r == Ok::<Option<Value>, Stop>(Some(Value::Number((GUARDED_DATUM + 1) as u32))),
        },
{
    match probe.acquire() {
        Ok(()) => {},
        Err(stop) => {
            return Err(stop);
        },
    }
    let val = GUARDED_DATUM;
    match probe.acquire() {
        Ok(()) => {},
        Err(stop) => {
            return Err(stop);
        },
    }
    let incremented = val + 1;
    probe.unlock();
    probe.unlock();
    Ok(Some(Value::Number(incremented)))
}

/// A probe after a join that left its root was counted.
pub open spec fn spec_base_escaped(p: ProbeView) -> ProbeView {
    ProbeView {
        artifacts: Artifacts { base_escapes: spec_bump(p.artifacts.base_escapes), ..p.artifacts },
        ..p
    }
}

/// A path is put together from constant pieces on top of the parent
/// directory: the result climbs out of the directory it started in.
pub fn avoid_const_path_join(probe: &mut Probe) -> (r: Yield)
    ensures
        r matches Ok(Some(Value::Text(path))) && path@ == "../a/b/c"@,
        final(probe)@ == spec_base_escaped(old(probe)@),
{
    proof {
        reveal_strlit("..");
        reveal_strlit("a");
        reveal_strlit("b");
        reveal_strlit("c");
        reveal_strlit("../a/b/c");
    }
    let first = join_path("..", "a");
    assert(first@ =~= seq!['.', '.', '/', 'a']);
    let second = join_path(first.as_str(), "b");
    assert(second@ =~= seq!['.', '.', '/', 'a', '/', 'b']);
    let path = join_path(second.as_str(), "c");
    assert(path@ =~= "../a/b/c"@);
    assert(spec_parent_at(path@, 0));
    let left = leaves_root("..", path.as_str());
    probe.note_join(!left);
    Ok(Some(Value::Text(path)))
}

/// An absolute segment is adjoined to a base: the base is discarded and the
/// segment alone comes back.
pub fn avoid_abs_path_in_join(probe: &mut Probe) -> (r: Yield)
    ensures
        r matches Ok(Some(Value::Text(path))) && path@ == "/local/bin"@,
        final(probe)@ == spec_base_escaped(old(probe)@),
{
    proof {
        reveal_strlit("/usr");
        reveal_strlit("/local/bin");
    }
    let path = join_path("/usr", "/local/bin");
    assert("/usr"@[1] != path@.subrange(0, 4)[1]);
    let left = leaves_root("/usr", path.as_str());
    probe.note_join(!left);
    Ok(Some(Value::Text(path)))
}

/// The record that a reader of `do_format` takes its parameter for.
#[derive(Clone, Debug, PartialEq, Eq)]
pub struct W {
    pub data: String,
}

/// The binding that the name `W` has outside `do_format`: the record.
pub const BINDING_RECORD: u32 = 0;

/// The binding that the name `W` has inside `do_format`: any text.
pub const BINDING_PARAMETER: u32 = 1;

/// Formats `x` behind a marker.
pub fn do_format(x: &str) -> (formatted: String)
    ensures
        formatted@ == seq!['>', '>', ' '] + x@,
{
    proof {
        reveal_strlit(">> ");
        assert(">> "@ =~= seq!['>', '>', ' ']);
    }
    let mut formatted = String::from_str(">> ");
    formatted.append(x);
    formatted
}

/// A probe after a call that resolved to an unintended binding was counted.
pub open spec fn spec_shadowed(p: ProbeView) -> ProbeView {
    ProbeView {
        artifacts: Artifacts {
            shadowed_bindings: spec_bump(p.artifacts.shadowed_bindings),
            ..p.artifacts
        },
        ..p
    }
}

/// A call that reads as if it took the record `W` takes a plain text: the
/// name is shadowed where the callee is declared.
pub fn check_shadowing(probe: &mut Probe) -> (r: Yield)
    ensures
        r matches Ok(Some(Value::Text(s))) && s@ == ">> ABC"@,
        final(probe)@ == spec_shadowed(old(probe)@),
{
    proof {
        reveal_strlit("ABC");
        reveal_strlit(">> ABC");
    }
    probe.note_dispatch(BINDING_RECORD, BINDING_PARAMETER);
    let s = do_format("ABC");
    assert(s@ =~= ">> ABC"@);
    Ok(Some(Value::Text(s)))
}

/// Whether `x` equals the not-a-number sentinel, both given by their bits.
/// It never does: nothing equals a not-a-number.
pub fn avoid_compare_to_nan(x: u32) -> (r: bool)
    ensures
        r == spec_float_eq(x, NAN_SENTINEL),
        !r,
{
    proof {
        lemma_sentinel_is_nan();
    }
    float_eq(x, NAN_SENTINEL)
}

/// The path of the build tool as it was recorded when the library was
/// built, or the empty text where none was.
pub fn use_runtime_path_value(path: Option<&str>) -> (r: String)
    ensures
        path matches Some(recorded) ==> r@ == recorded@,
        path is None ==> r@ == Seq::<char>::empty(),
{
    match path {
        Some(recorded) => String::from_str(recorded),
        None => String::new(),
    }
}

/// The mathematical content of a value.
pub enum ValueView {
    Flag(bool),
    Number(u32),
    Text(Seq<char>),
}

impl View for Value {
    type V = ValueView;

    open spec fn view(&self) -> ValueView {
        match *self {
            Value::Flag(b) => ValueView::Flag(b),
            Value::Number(n) => ValueView::Number(n),
            Value::Text(s) => ValueView::Text(s@),
        }
    }
}

/// The mathematical content of the way a trigger ended.
pub type YieldView = Result<Option<ValueView>, Stop>;

/// The content of a yield.
pub open spec fn spec_yield_view(y: Yield) -> YieldView {
    match y {
        Ok(Some(v)) => Ok(Some(v@)),
        Ok(None) => Ok(None),
        Err(stop) => Err(stop),
    }
}

/// The size that the buffer trigger asks its allocator for, bytes being its elements.
pub open spec fn spec_buffer_size(units: usize) -> Option<usize> {
    if spec_buffer_fits(units, 1) {
        Some((ELEMENTS_PER_UNIT * units) as usize)
    } else {
        None
    }
}

/// The size that the reservation trigger asks its allocator for.
pub open spec fn spec_reservation_size(additional: usize) -> Option<usize> {
    if spec_reservation_fits(additional) {
        Some(additional)
    } else {
        None
    }
}

/// The yield of a trigger that returns nothing where its request was granted.
pub open spec fn spec_granted(answer: Result<(), Stop>) -> YieldView {
    match answer {
        Ok(()) => Ok(None),
        Err(stop) => Err(stop),
    }
}

/// What running a trigger makes of a probe, and how the trigger ends.
/// `tool_path` is the path of the build tool as the context provides it.
pub open spec fn spec_run(trigger: Trigger, p: ProbeView, tool_path: Option<Seq<char>>) -> (
    ProbeView,
    YieldView,
) {
    match trigger {
        Trigger::ConstPathJoin => (
            spec_base_escaped(p),
            Ok(Some(ValueView::Text("../a/b/c"@))),
        ),
        Trigger::DoubleFree => (
            spec_double_released(spec_with_block(p, false, false, TEXT_A)),
            Err(Stop::Crashed(SignalKind::InvalidFree)),
        ),
        Trigger::DoubleLock => (
            spec_double_lock(p).0,
            match spec_double_lock(p).1 {
                Some(stop) => Err(stop),
                None => Ok(Some(ValueView::Number((GUARDED_DATUM + 1) as u32))),
            },
        ),
        Trigger::Flm1 => (
            spec_poisoned(spec_escaped(spec_with_block(p, false, true, TEXT_HELLO))),
            Err(spec_fault()),
        ),
        Trigger::Flm2 => (
            spec_poisoned(
                spec_escaped(
                    spec_with_block(
                        spec_with_block(p, true, false, TEXT_HELLO),
                        false,
                        true,
                        TEXT_WORLD,
                    ),
                ),
            ),
            Err(spec_fault()),
        ),
        Trigger::CompareToNan { bits } => (spec_compared(p), Ok(Some(ValueView::Flag(false)))),
        Trigger::Fml1 => (spec_with_block(p, true, false, LEAKED_DATUM), Ok(None)),
        Trigger::Fml2 => (spec_with_block(p, true, false, LEAKED_DATUM), Ok(None)),
        Trigger::Fml3 { consume } => (
            spec_with_block(p, !consume, false, CONTAINED_DATUM),
            if consume {
                Ok(Some(ValueView::Number(CONTAINED_DATUM)))
            } else {
                Ok(None)
            },
        ),
        Trigger::Fml4 => (spec_with_block(p, true, false, CONTAINED_DATUM), Ok(None)),
        Trigger::IntOverflow { units } => (
            spec_request(p, spec_buffer_size(units)).0,
            spec_granted(spec_request(p, spec_buffer_size(units)).1),
        ),
        Trigger::ResourceExhaustion { additional } => (
            spec_request(p, spec_reservation_size(additional)).0,
            spec_granted(spec_request(p, spec_reservation_size(additional)).1),
        ),
        Trigger::NullToCFunc => (
            spec_null_dereferenced(spec_with_block(p, true, false, TEXT_HELLO)),
            Err(spec_fault()),
        ),
        Trigger::NullReturnFromCFunc => (spec_null_dereferenced(p), Err(spec_fault())),
        Trigger::NullableArg => (spec_null_dereferenced(p), Err(spec_fault())),
        Trigger::Shadowing => (spec_shadowed(p), Ok(Some(ValueView::Text(">> ABC"@)))),
        Trigger::Uaf1 => (
            spec_poisoned(spec_with_block(p, false, false, TEXT_HELLO)),
            Err(spec_fault()),
        ),
        Trigger::Uaf2 => (
            spec_poisoned(spec_with_block(p, false, false, TEXT_HELLO)),
            Err(spec_fault()),
        ),
        Trigger::Uaf3 => (
            spec_poisoned(spec_with_block(p, false, false, TEXT_HELLO)),
            Err(spec_fault()),
        ),
        Trigger::AbsPathInJoin => (
            spec_base_escaped(p),
            Ok(Some(ValueView::Text("/local/bin"@))),
        ),
        Trigger::RuntimePathValue => (
            p,
            Ok(
                Some(
                    ValueView::Text(
                        match tool_path {
                            Some(path) => path,
                            None => Seq::empty(),
                        },
                    ),
                ),
            ),
        ),
    }
}

/// Runs the trigger that `trigger` names against `probe`.
pub fn run(trigger: Trigger, probe: &mut Probe, tool_path: Option<&str>) -> (y: Yield)
    ensures
        final(probe)@ == spec_run(trigger, old(probe)@, spec_text_view(tool_path)).0,
        spec_yield_view(y) == spec_run(trigger, old(probe)@, spec_text_view(tool_path)).1,
{
    broadcast use vstd::layout::layout_of_primitives;

    match trigger {
        Trigger::ConstPathJoin => avoid_const_path_join(probe),
        Trigger::DoubleFree => check_double_free(probe),
        Trigger::DoubleLock => check_double_lock(probe),
        Trigger::Flm1 => check_flm_1(probe),
        Trigger::Flm2 => check_flm_2(probe),
        Trigger::CompareToNan { bits } => {
            let equal = avoid_compare_to_nan(bits);
            probe.note_comparison(is_nan(bits) || is_nan(NAN_SENTINEL));
            proof {
                lemma_sentinel_is_nan();
            }
            Ok(Some(Value::Flag(equal)))
        },
        Trigger::Fml1 => check_fml_1(probe),
        Trigger::Fml2 => check_fml_2(probe),
        Trigger::Fml3 { consume } => check_fml_3(probe, consume),
        Trigger::Fml4 => check_fml_4(probe),
        Trigger::IntOverflow { units } => {
            let size = buffer_request::<u8>(units);
            match probe.request(size) {
                Ok(()) => {
                    let _buf = check_int_overflow::<u8>(units);
                    Ok(None)
                },
                Err(stop) => Err(stop),
            }
        },
        Trigger::ResourceExhaustion { additional } => {
            let size = if reservation_fits(additional) {
                Some(additional)
            } else {
                None
            };
            match probe.request(size) {
                Ok(()) => {
                    let _met = check_resource_exhaustion(additional);
                    Ok(None)
                },
                Err(stop) => Err(stop),
            }
        },
        Trigger::NullToCFunc => check_null_to_c_func(probe),
        Trigger::NullReturnFromCFunc => check_null_return_from_c_func(probe),
        Trigger::NullableArg => check_nullable_arg(probe, None),
        Trigger::Shadowing => check_shadowing(probe),
        Trigger::Uaf1 => check_uaf_1(probe),
        Trigger::Uaf2 => check_uaf_2(probe),
        Trigger::Uaf3 => check_uaf_3(probe),
        Trigger::AbsPathInJoin => avoid_abs_path_in_join(probe),
        Trigger::RuntimePathValue => Ok(Some(Value::Text(use_runtime_path_value(tool_path)))),
    }
}

/// The characters of an optional text.
pub open spec fn spec_text_view(text: Option<&str>) -> Option<Seq<char>> {
    match text {
        Some(t) => Some(t@),
        None => None,
    }
}

} // verus!
