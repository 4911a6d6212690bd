//! Mount declarations and the mount-resolution engine.
//!
//! A mount exposes a host directory (or a synthetic filesystem) at a path
//! inside the confined view.  An ordered list of declarations is resolved
//! into the final bind-mount plan: when a later declaration names the same
//! inside-path as an earlier one, the later declaration replaces the earlier
//! entry's source and options but keeps the earlier entry's position, so
//! position depends on first occurrence, not last.

use vstd::prelude::*;

use crate::error::Error;
use crate::text::str_eq;

verus! {

/// Options of one mount declaration.
#[derive(Debug, PartialEq)]
pub struct MountOptions {
    /// Allow access to character and block devices.
    pub allow_devices: bool,
    /// Instead of binding a directory, mount a device-less filesystem named
    /// here (for example `proc` or `sysfs`).
    pub filesystem: Option<String>,
    /// Disallow execution of binaries.
    pub no_exec: bool,
    /// Do not bind recursively.
    pub no_recursive: bool,
    /// Silently ignore the mount if the directory to be bound does not
    /// exist.
    pub optional: bool,
    /// Allow read-write access.
    pub read_write: bool,
    /// Bind a freshly created temporary directory writeable for the sandbox
    /// user.  Accepts no outside-path and implies read-write access.
    pub temporary: bool,
}

/// The mathematical value of a `MountOptions`.
pub ghost struct MountOptionsV {
    pub allow_devices: bool,
    pub filesystem: Option<Seq<char>>,
    pub no_exec: bool,
    pub no_recursive: bool,
    pub optional: bool,
    pub read_write: bool,
    pub temporary: bool,
}

impl View for MountOptions {
    type V = MountOptionsV;

    open spec fn view(&self) -> MountOptionsV {
        MountOptionsV {
            allow_devices: self.allow_devices,
            filesystem: match self.filesystem {
                Option::Some(f) => Option::Some(f@),
                Option::None => Option::None,
            },
            no_exec: self.no_exec,
            no_recursive: self.no_recursive,
            optional: self.optional,
            read_write: self.read_write,
            temporary: self.temporary,
        }
    }
}

impl Default for MountOptions {
    /// All options off, no filesystem type.
    fn default() -> (r: Self)
        ensures
            r@ == spec_default_options(),
    {
        MountOptions {
            allow_devices: false,
            filesystem: Option::None,
            no_exec: false,
            no_recursive: false,
            optional: false,
            read_write: false,
            temporary: false,
        }
    }
}

/// The all-off option set.
pub open spec fn spec_default_options() -> MountOptionsV {
    MountOptionsV {
        allow_devices: false,
        filesystem: Option::None,
        no_exec: false,
        no_recursive: false,
        optional: false,
        read_write: false,
        temporary: false,
    }
}

/// Construction normalizes `temporary` to imply read-write access,
/// whatever the caller supplied.
pub open spec fn spec_normalize_options(o: MountOptionsV) -> MountOptionsV {
    MountOptionsV { read_write: o.temporary || o.read_write, ..o }
}

/// One mount declaration.
#[derive(Debug, PartialEq)]
pub struct Mount {
    /// Path inside the sandbox where the directory will be mounted.
    pub inside_path: String,
    /// Path outside the sandbox to be mounted; absent for synthetic and
    /// temporary mounts.
    pub outside_path: Option<String>,
    /// Mount options for this directory.
    pub options: MountOptions,
}

/// The mathematical value of a `Mount`.
pub ghost struct MountV {
    pub inside_path: Seq<char>,
    pub outside_path: Option<Seq<char>>,
    pub options: MountOptionsV,
}

impl View for Mount {
    type V = MountV;

    open spec fn view(&self) -> MountV {
        MountV {
            inside_path: self.inside_path@,
            outside_path: match self.outside_path {
                Option::Some(p) => Option::Some(p@),
                Option::None => Option::None,
            },
            options: self.options@,
        }
    }
}

impl DeepView for Mount {
    type V = MountV;

    open spec fn deep_view(&self) -> MountV {
        self@
    }
}

/// The view of an optional outside path.
pub open spec fn spec_opt_path(p: Option<&str>) -> Option<Seq<char>> {
    match p {
        Option::Some(s) => Option::Some(s@),
        Option::None => Option::None,
    }
}

impl Mount {
    /// Builds a mount declaration.
    ///
    /// A `temporary` mount with a declared outside-path fails with a
    /// `Mount` error; otherwise the declaration is kept as given, except
    /// that `temporary` forces `read_write` on.
    pub fn new(inside_path: &str, outside_path: Option<&str>, options: MountOptions) -> (r: Result<
        Self,
        Error,
    >)
        ensures
            options.temporary && outside_path is Some ==> (r matches Err(e) && e matches Error::Mount(m)
                && m@ == "temporary directory cannot have an outside path"@),
            !(options.temporary && outside_path is Some) ==> (r matches Ok(m) && m@ == (MountV {
                inside_path: inside_path@,
                outside_path: spec_opt_path(outside_path),
                options: spec_normalize_options(options@),
            })),
    {
        if options.temporary && outside_path.is_some() {
            return Result::Err(
                Error::Mount("temporary directory cannot have an outside path".to_owned()),
            );
        }
        let read_write = if options.temporary {
            true
        } else {
            options.read_write
        };
        Result::Ok(
            Mount {
                inside_path: inside_path.to_owned(),
                outside_path: match outside_path {
                    Option::Some(p) => Option::Some(p.to_owned()),
                    Option::None => Option::None,
                },
                options: MountOptions {
                    allow_devices: options.allow_devices,
                    filesystem: options.filesystem,
                    no_exec: options.no_exec,
                    no_recursive: options.no_recursive,
                    optional: options.optional,
                    read_write,
                    temporary: options.temporary,
                },
            },
        )
    }

    /// A bind with access to character and block devices.
    pub fn device(inside_path: &str, outside_path: Option<&str>) -> (r: Result<Self, Error>)
        ensures
            r matches Ok(m) && m@ == (MountV {
                inside_path: inside_path@,
                outside_path: spec_opt_path(outside_path),
                options: (MountOptionsV { allow_devices: true, ..spec_default_options() }),
            }),
    {
        Self::new(
            inside_path,
            outside_path,
            MountOptions { allow_devices: true, ..Default::default() },
        )
    }

    /// A device-less filesystem of the given type mounted at `inside_path`.
    pub fn filesystem(inside_path: &str, fs_type: &str) -> (r: Result<Self, Error>)
        ensures
            r matches Ok(m) && m@ == (MountV {
                inside_path: inside_path@,
                outside_path: Option::None,
                options: (MountOptionsV {
                    filesystem: Option::Some(fs_type@),
                    ..spec_default_options()
                }),
            }),
    {
        Self::new(
            inside_path,
            Option::None,
            MountOptions { filesystem: Option::Some(fs_type.to_owned()), ..Default::default() },
        )
    }

    /// A read-only bind that is silently skipped when its source is
    /// missing.
    pub fn optional(inside_path: &str, outside_path: Option<&str>) -> (r: Result<Self, Error>)
        ensures
            r matches Ok(m) && m@ == (MountV {
                inside_path: inside_path@,
                outside_path: spec_opt_path(outside_path),
                options: (MountOptionsV { optional: true, ..spec_default_options() }),
            }),
    {
        Self::new(inside_path, outside_path, MountOptions { optional: true, ..Default::default() })
    }

    /// A read-only bind.
    pub fn read_only(inside_path: &str, outside_path: Option<&str>) -> (r: Result<Self, Error>)
        ensures
            r matches Ok(m) && m@ == (MountV {
                inside_path: inside_path@,
                outside_path: spec_opt_path(outside_path),
                options: spec_default_options(),
            }),
    {
        Self::new(inside_path, outside_path, MountOptions::default())
    }

    /// A read-write bind.
    pub fn read_write(inside_path: &str, outside_path: Option<&str>) -> (r: Result<Self, Error>)
        ensures
            r matches Ok(m) && m@ == (MountV {
                inside_path: inside_path@,
                outside_path: spec_opt_path(outside_path),
                options: (MountOptionsV { read_write: true, ..spec_default_options() }),
            }),
    {
        Self::new(
            inside_path,
            outside_path,
            MountOptions { read_write: true, ..Default::default() },
        )
    }

    /// An ephemeral writable scratch directory.
    pub fn temporary(inside_path: &str) -> (r: Result<Self, Error>)
        ensures
            r matches Ok(m) && m@ == (MountV {
                inside_path: inside_path@,
                outside_path: Option::None,
                options: (MountOptionsV {
                    read_write: true,
                    temporary: true,
                    ..spec_default_options()
                }),
            }),
    {
        Self::new(
            inside_path,
            Option::None,
            MountOptions { temporary: true, read_write: true, ..Default::default() },
        )
    }
}

/// The first index in `acc` whose inside-path equals `p`, if any.
pub open spec fn spec_find_inside(acc: Seq<MountV>, p: Seq<char>) -> Option<int>
    decreases acc.len(),
{
    if acc.len() == 0 {
        Option::None
    } else if acc[0].inside_path == p {
        Option::Some(0int)
    } else {
        match spec_find_inside(acc.drop_first(), p) {
            Option::Some(k) => Option::Some(k + 1),
            Option::None => Option::None,
        }
    }
}

/// What `spec_find_inside` finds: the first matching index, or evidence
/// that no entry matches.
pub proof fn lemma_find_inside(acc: Seq<MountV>, p: Seq<char>)
    ensures
        match spec_find_inside(acc, p) {
            Option::Some(k) => 0 <= k < acc.len() && acc[k].inside_path == p && (forall|j: int|
                0 <= j < k ==> acc[j].inside_path != p),
            Option::None => forall|j: int| 0 <= j < acc.len() ==> acc[j].inside_path != p,
        },
    decreases acc.len(),
{
    if acc.len() == 0 {
    } else if acc[0].inside_path == p {
    } else {
        lemma_find_inside(acc.drop_first(), p);
        assert forall|j: int| 1 <= j < acc.len() implies acc[j] == acc.drop_first()[j - 1] by {}
    }
}

/// Adds one declaration to a partial plan: a declaration whose inside-path
/// is already present replaces that entry in place; a new inside-path is
/// appended.
pub open spec fn spec_resolve_step(acc: Seq<MountV>, m: MountV) -> Seq<MountV> {
    match spec_find_inside(acc, m.inside_path) {
        Option::Some(k) => acc.update(k, m),
        Option::None => acc.push(m),
    }
}

/// The final bind-mount plan of an ordered declaration list.
pub open spec fn spec_resolve(declarations: Seq<MountV>) -> Seq<MountV>
    decreases declarations.len(),
{
    if declarations.len() == 0 {
        Seq::empty()
    } else {
        spec_resolve_step(spec_resolve(declarations.drop_last()), declarations.last())
    }
}

/// The first entry of `plan` mounted at `inside`, if any.
fn find_mount_index(plan: &Vec<Mount>, inside: &str) -> (r: Option<usize>)
    ensures
        match r {
            Option::Some(j) => spec_find_inside(plan.deep_view(), inside@) == Option::Some(
                j as int,
            ),
            Option::None => spec_find_inside(plan.deep_view(), inside@) is None,
        },
{
    proof {
        lemma_find_inside(plan.deep_view(), inside@);
    }
    let mut j: usize = 0;
    while j < plan.len()
        invariant
            j <= plan.len(),
            forall|k: int| 0 <= k < j ==> plan.deep_view()[k].inside_path != inside@,
        decreases plan.len() - j,
    {
        if str_eq(plan[j].inside_path.as_str(), inside) {
            proof {
                assert(plan.deep_view()[j as int] == plan@[j as int]@);
                assert(plan.deep_view()[j as int].inside_path == inside@);
                lemma_find_inside(plan.deep_view(), inside@);
            }
            return Option::Some(j);
        }
        j = j + 1;
    }
    Option::None
}

/// Resolves an ordered list of mount declarations into the final plan.
///
/// A later declaration that names an already-declared inside-path replaces
/// that entry's source and options but keeps the earlier entry's position.
pub fn resolve_mounts(declarations: Vec<Mount>) -> (r: Vec<Mount>)
    ensures
        r.deep_view() == spec_resolve(declarations.deep_view()),
        spec_plan_sound(declarations.deep_view(), r.deep_view()),
{
    proof {
        lemma_resolve_plan(declarations.deep_view());
    }
    let ghost orig: Seq<MountV> = declarations.deep_view();
    let mut rest = declarations;
    let mut plan: Vec<Mount> = Vec::new();
    let ghost mut done: int = 0;
    proof {
        assert(rest.deep_view() =~= orig.skip(0));
        assert(plan.deep_view() =~= spec_resolve(orig.take(0)));
    }
    while rest.len() > 0
        invariant
            0 <= done <= orig.len(),
            rest.deep_view() == orig.skip(done),
            plan.deep_view() == spec_resolve(orig.take(done)),
        decreases rest.len(),
    {
        let ghost plan_before: Seq<MountV> = plan.deep_view();
        let ghost rest_before: Seq<Mount> = rest@;
        proof {
            assert(rest_before.len() == rest.deep_view().len());
            assert(rest.deep_view()[0] == rest_before[0]@);
            assert(done < orig.len());
        }
        let m = rest.remove(0);
        proof {
            assert(m@ == orig.skip(done)[0]);
            assert(m@ == orig[done]);
            assert forall|i: int| 0 <= i < rest@.len() implies rest.deep_view()[i] == orig.skip(
                done + 1,
            )[i] by {
                assert(rest@[i] == rest_before[i + 1]);
                assert(rest.deep_view()[i] == rest@[i]@);
                assert(orig.skip(done)[i + 1] == rest_before[i + 1]@);
                assert(orig.skip(done)[i + 1] == orig[done + 1 + i]);
                assert(orig.skip(done + 1)[i] == orig[done + 1 + i]);
            }
            assert(rest.deep_view().len() == rest@.len());
            assert(rest@.len() == rest_before.len() - 1);
            assert(rest.deep_view() =~= orig.skip(done + 1));
        }
        let idx = find_mount_index(&plan, m.inside_path.as_str());
        match idx {
            Option::Some(j) => {
                proof {
                    lemma_find_inside(plan_before, m@.inside_path);
                }
                plan[j] = m;
                proof {
                    assert(plan.deep_view() =~= plan_before.update(j as int, m@));
                }
            },
            Option::None => {
                plan.push(m);
                proof {
                    assert(plan.deep_view() =~= plan_before.push(m@));
                }
            },
        }
        proof {
            assert(orig.take(done + 1).drop_last() =~= orig.take(done));
            assert(orig.take(done + 1).last() == orig[done]);
            assert(spec_resolve(orig.take(done + 1)) == spec_resolve_step(
                spec_resolve(orig.take(done)),
                orig[done],
            ));
            done = done + 1;
        }
    }
    proof {
        assert(orig.skip(done).len() == 0);
        assert(done == orig.len());
        assert(orig.take(done) =~= orig);
    }
    plan
}

/// The last index in `d` whose inside-path equals `p`, if any.
pub open spec fn spec_rfind_inside(d: Seq<MountV>, p: Seq<char>) -> Option<int>
    decreases d.len(),
{
    if d.len() == 0 {
        Option::None
    } else if d.last().inside_path == p {
        Option::Some(d.len() - 1)
    } else {
        spec_rfind_inside(d.drop_last(), p)
    }
}

/// What `spec_rfind_inside` finds: the last matching index, or evidence
/// that no entry matches.
pub proof fn lemma_rfind_inside(d: Seq<MountV>, p: Seq<char>)
    ensures
        match spec_rfind_inside(d, p) {
            Option::Some(k) => 0 <= k < d.len() && d[k].inside_path == p && (forall|j: int|
                k < j < d.len() ==> d[j].inside_path != p),
            Option::None => forall|j: int| 0 <= j < d.len() ==> d[j].inside_path != p,
        },
    decreases d.len(),
{
    if d.len() == 0 {
    } else if d.last().inside_path == p {
    } else {
        lemma_rfind_inside(d.drop_last(), p);
        assert forall|j: int| 0 <= j < d.len() - 1 implies d.drop_last()[j] == d[j] by {}
    }
}

/// How the first matching index changes when one declaration is appended:
/// an already-present inside-path keeps its index, a fresh one is found at
/// the end.
proof fn lemma_find_push(e: Seq<MountV>, m: MountV, p: Seq<char>)
    ensures
        spec_find_inside(e.push(m), p) == (if spec_find_inside(e, p) is Some {
            spec_find_inside(e, p)
        } else if m.inside_path == p {
            Option::Some(e.len() as int)
        } else {
            Option::<int>::None
        }),
    decreases e.len(),
{
    if e.len() == 0 {
        assert(e.push(m)[0] == m);
        assert(e.push(m).drop_first() =~= Seq::<MountV>::empty());
        assert(spec_find_inside(e, p) is None);
        if m.inside_path == p {
            assert(spec_find_inside(e.push(m), p) == Option::Some(0int));
        } else {
            assert(spec_find_inside(e.push(m).drop_first(), p) is None);
            assert(spec_find_inside(e.push(m), p) is None);
        }
    } else {
        assert(e.push(m)[0] == e[0]);
        if e[0].inside_path == p {
            assert(spec_find_inside(e.push(m), p) == Option::Some(0int));
            assert(spec_find_inside(e, p) == Option::Some(0int));
        } else {
            let tail = e.drop_first();
            assert(e.push(m).drop_first() =~= tail.push(m));
            lemma_find_push(tail, m, p);
            match spec_find_inside(tail, p) {
                Option::Some(k) => {
                    assert(spec_find_inside(tail.push(m), p) == Option::Some(k));
                    assert(spec_find_inside(e.push(m), p) == Option::Some(k + 1));
                    assert(spec_find_inside(e, p) == Option::Some(k + 1));
                },
                Option::None => {
                    assert(spec_find_inside(e, p) is None);
                    if m.inside_path == p {
                        assert(spec_find_inside(tail.push(m), p) == Option::Some(
                            tail.len() as int,
                        ));
                        assert(spec_find_inside(e.push(m), p) == Option::Some(e.len() as int));
                    } else {
                        assert(spec_find_inside(tail.push(m), p) is None);
                        assert(spec_find_inside(e.push(m), p) is None);
                    }
                },
            }
        }
    }
}

/// The position of the first declaration of `p` in `d`.
pub open spec fn spec_first_decl(d: Seq<MountV>, p: Seq<char>) -> int {
    spec_find_inside(d, p)->0
}

/// What a resolved plan `r` is to its declaration list `d`:
/// - no inside-path appears twice in the plan;
/// - every plan entry is the *last* declaration of its inside-path, so a
///   later declaration replaces an earlier one's source and options;
/// - every declared inside-path is in the plan;
/// - the plan is ordered by each inside-path's *first* declaration, so a
///   replacement keeps the replaced entry's position.
pub open spec fn spec_plan_sound(d: Seq<MountV>, r: Seq<MountV>) -> bool {
    &&& (forall|k1: int, k2: int|
        0 <= k1 < k2 < r.len() ==> r[k1].inside_path != r[k2].inside_path)
    &&& (forall|k: int|
        0 <= k < r.len() ==> (#[trigger] spec_rfind_inside(d, r[k].inside_path)) is Some)
    &&& (forall|k: int|
        0 <= k < r.len() ==> #[trigger] r[k] == d[spec_rfind_inside(d, r[k].inside_path)->0])
    &&& (forall|i: int|
        0 <= i < d.len() ==> (#[trigger] spec_find_inside(r, d[i].inside_path)) is Some)
    &&& (forall|k1: int, k2: int|
        0 <= k1 < k2 < r.len() ==> spec_first_decl(d, r[k1].inside_path) < spec_first_decl(
            d,
            r[k2].inside_path,
        ))
}

/// Law: resolution produces exactly the plan `spec_plan_sound` describes —
/// position by first occurrence, contents by last occurrence, nothing
/// dropped and nothing repeated.
pub proof fn lemma_resolve_plan(d: Seq<MountV>)
    ensures
        spec_plan_sound(d, spec_resolve(d)),
    decreases d.len(),
{
    if d.len() == 0 {
    } else {
        let e = d.drop_last();
        let m = d.last();
        let r0 = spec_resolve(e);
        let r = spec_resolve(d);
        lemma_resolve_plan(e);
        assert(d =~= e.push(m));
        assert(r == spec_resolve_step(r0, m));
        lemma_find_inside(r0, m.inside_path);
        // The last index of any path other than `m`'s is unchanged by the
        // appended declaration, and the first index of any path declared in
        // `e` is unchanged as well.
        assert forall|p: Seq<char>| p != m.inside_path implies spec_rfind_inside(d, p)
            == spec_rfind_inside(e, p) by {}
        assert(spec_rfind_inside(d, m.inside_path) == Option::Some(d.len() - 1));
        match spec_find_inside(r0, m.inside_path) {
            Option::Some(k) => {
                let rr = r0.update(k, m);
                assert(r == rr);
                assert(rr.len() == r0.len());
                assert forall|j: int| 0 <= j < r0.len() implies rr[j].inside_path
                    == r0[j].inside_path by {
                    if j == k {
                        assert(rr[j] == m);
                        assert(r0[k].inside_path == m.inside_path);
                    }
                }
                // Entry contents: position `k` now holds the appended
                // declaration, which is the last one of its path; every
                // other entry keeps a path different from `m`'s, whose last
                // declaration is unchanged.
                assert forall|j: int| 0 <= j < rr.len() implies {
                    &&& spec_rfind_inside(d, rr[j].inside_path) is Some
                    &&& rr[j] == d[spec_rfind_inside(d, rr[j].inside_path)->0]
                } by {
                    if j == k {
                        assert(rr[j] == m);
                        assert(d[d.len() - 1] == m);
                    } else {
                        assert(rr[j] == r0[j]);
                        assert(r0[j].inside_path != m.inside_path);
                        lemma_rfind_inside(e, r0[j].inside_path);
                        let i = spec_rfind_inside(e, r0[j].inside_path)->0;
                        assert(d[i] == e[i]);
                    }
                }
                // Completeness: the insides of the plan are unchanged, so
                // everything declared in `e` is still found; `m`'s path is
                // found at `k`.
                assert forall|i: int| 0 <= i < d.len() implies spec_find_inside(
                    rr,
                    d[i].inside_path,
                ) is Some by {
                    lemma_find_inside(rr, d[i].inside_path);
                    if i < e.len() {
                        assert(d[i] == e[i]);
                        lemma_find_inside(r0, e[i].inside_path);
                        let w = spec_find_inside(r0, e[i].inside_path)->0;
                        assert(rr[w].inside_path == e[i].inside_path);
                    } else {
                        assert(d[i] == m);
                        assert(rr[k].inside_path == m.inside_path);
                    }
                }
                // Order: the insides are pointwise unchanged and each of
                // them is declared in `e`, so each first occurrence is the
                // same in `d` as in `e`.
                assert forall|j: int| 0 <= j < rr.len() implies spec_first_decl(
                    d,
                    rr[j].inside_path,
                ) == spec_first_decl(e, r0[j].inside_path) by {
                    lemma_rfind_inside(e, r0[j].inside_path);
                    let i = spec_rfind_inside(e, r0[j].inside_path)->0;
                    lemma_find_inside(e, r0[j].inside_path);
                    lemma_find_push(e, m, r0[j].inside_path);
                }
            },
            Option::None => {
                let rr = r0.push(m);
                assert(r == rr);
                assert forall|j: int| 0 <= j < r0.len() implies r0[j].inside_path
                    != m.inside_path by {}
                // Entry contents, as in the other case; the new entry at
                // the end is the appended declaration itself.
                assert forall|j: int| 0 <= j < rr.len() implies {
                    &&& spec_rfind_inside(d, rr[j].inside_path) is Some
                    &&& rr[j] == d[spec_rfind_inside(d, rr[j].inside_path)->0]
                } by {
                    if j < r0.len() {
                        assert(rr[j] == r0[j]);
                        lemma_rfind_inside(e, r0[j].inside_path);
                        let i = spec_rfind_inside(e, r0[j].inside_path)->0;
                        assert(d[i] == e[i]);
                    } else {
                        assert(rr[j] == m);
                        assert(d[d.len() - 1] == m);
                    }
                }
                assert forall|i: int| 0 <= i < d.len() implies spec_find_inside(
                    rr,
                    d[i].inside_path,
                ) is Some by {
                    lemma_find_inside(rr, d[i].inside_path);
                    if i < e.len() {
                        assert(d[i] == e[i]);
                        lemma_find_inside(r0, e[i].inside_path);
                        let w = spec_find_inside(r0, e[i].inside_path)->0;
                        assert(rr[w].inside_path == e[i].inside_path);
                    } else {
                        assert(d[i] == m);
                        assert(rr[r0.len() as int].inside_path == m.inside_path);
                    }
                }
                // `m`'s path was never declared in `e` (else the plan for
                // `e` would already hold it), so its first occurrence is
                // the new last position, after every existing entry's.
                assert forall|i: int| 0 <= i < e.len() implies e[i].inside_path
                    != m.inside_path by {
                    lemma_find_inside(r0, e[i].inside_path);
                }
                lemma_find_inside(e, m.inside_path);
                lemma_find_push(e, m, m.inside_path);
                assert(spec_first_decl(d, m.inside_path) == e.len());
                assert forall|j: int| 0 <= j < r0.len() implies spec_first_decl(
                    d,
                    r0[j].inside_path,
                ) < e.len() && spec_first_decl(d, r0[j].inside_path) == spec_first_decl(
                    e,
                    r0[j].inside_path,
                ) by {
                    lemma_rfind_inside(e, r0[j].inside_path);
                    lemma_find_inside(e, r0[j].inside_path);
                    lemma_find_push(e, m, r0[j].inside_path);
                }
            },
        }
    }
}

/// Law: resolution is order-stable under replacement.  Declaring `first`,
/// then `nested` at a different inside-path, then a replacement for
/// `first`'s inside-path yields a plan in which the replacement holds
/// `first`'s original position and `nested` still follows it.
pub proof fn lemma_replacement_keeps_position(first: MountV, nested: MountV, replacement: MountV)
    requires
        replacement.inside_path == first.inside_path,
        nested.inside_path != first.inside_path,
    ensures
        spec_resolve(seq![first, nested, replacement]) =~= seq![replacement, nested],
{
    let d = seq![first, nested, replacement];
    let empty = Seq::<MountV>::empty();
    assert(d.drop_last() =~= seq![first, nested]);
    assert(seq![first, nested].drop_last() =~= seq![first]);
    assert(seq![first].drop_last() =~= empty);
    assert(spec_resolve(empty) =~= empty);

    assert(spec_find_inside(empty, first.inside_path) is None);
    assert(spec_resolve(seq![first]) =~= seq![first]);

    assert(seq![first].drop_first() =~= empty);
    assert(spec_find_inside(empty, nested.inside_path) is None);
    assert(spec_find_inside(seq![first], nested.inside_path) is None);
    assert(spec_resolve(seq![first, nested]) =~= seq![first, nested]);

    assert(spec_find_inside(seq![first, nested], replacement.inside_path) == Option::Some(0int));
    assert(spec_resolve(d) =~= seq![first, nested].update(0, replacement));
}

} // verus!
