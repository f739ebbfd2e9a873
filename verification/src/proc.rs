//! User-namespace id mappings.
//!
//! A mapping plan says, for the uid and the gid map of a target process,
//! whether the map file is written directly or through the set-uid shadowutils
//! helpers, and with exactly which bytes or arguments. The plan — the
//! deduplication, the direct-write decision, and the formatting — is verified;
//! the probes for the current ids and capabilities, and the helper discovery,
//! are trusted wrappers.

use vstd::prelude::*;

use crate::fs::Syscall;

verus! {

/// One user-namespace translation window: ids `child_start..child_start+length`
/// inside the namespace map to `host_start..host_start+length` outside it.
#[derive(Debug, Clone, Copy, PartialEq, Eq, Hash, Structural)]
pub struct IdMapping {
    pub host_start: u32,
    pub child_start: u32,
    pub length: u32,
}

impl IdMapping {
    /// The mapping `(child_start, host_start, length)`.
    pub fn new(child_start: u32, host_start: u32, length: u32) -> (r: Self)
        ensures
            r.child_start == child_start,
            r.host_start == host_start,
            r.length == length,
    {
        IdMapping { host_start, child_start, length }
    }

    /// Maps the calling user to root inside the namespace: the probed real
    /// uid is the one unverified input; it goes through the exact
    /// constructor, so the window is `(0, that uid, 1)` by [`IdMapping::new`]'s
    /// contract.
    pub fn current_user_to_root() -> (r: Self)
        ensures
            r.child_start == 0,
            r.length == 1,
    {
        IdMapping::new(0, sys_getuid(), 1)
    }

    /// Maps the calling group to root inside the namespace: the probed real
    /// gid goes through the exact constructor, giving `(0, that gid, 1)`.
    pub fn current_group_to_root() -> (r: Self)
        ensures
            r.child_start == 0,
            r.length == 1,
    {
        IdMapping::new(0, sys_getgid(), 1)
    }
}

/// Discovered paths of the `newuidmap` and `newgidmap` helpers, if any.
#[derive(Debug, Clone, PartialEq, Eq, Hash)]
pub struct IdMappingTools {
    pub uid_map: Option<String>,
    pub gid_map: Option<String>,
}

/// Why writing the mappings failed or cannot be planned.
#[derive(Debug, Clone, PartialEq, Eq)]
pub enum WriteMappingsErrorKind {
    /// Neither a direct write is permitted nor a helper is available.
    NoTools,
    /// Reading or writing a map file failed with this errno.
    Io { errno: i32 },
    /// A mapping could not be formatted.
    BadMapping,
    /// A shadowutils helper exited with a non-zero status.
    ShadowUtils,
}

/// Failure to write the user-namespace mappings.
#[derive(Debug, Clone, PartialEq, Eq)]
pub struct WriteMappingsError {
    pub kind: WriteMappingsErrorKind,
}

/// Failure to assume the sandbox uid or gid.
#[derive(Debug, Clone, PartialEq, Eq, Structural)]
pub struct SetIdsError {
    pub errno: i32,
}

/// Relies on nix::unistd::getuid: the current real uid.
#[verifier::external_body]
fn sys_getuid() -> (r: u32) {
    nix::unistd::getuid().as_raw()
}

/// Relies on nix::unistd::getgid: the current real gid.
#[verifier::external_body]
fn sys_getgid() -> (r: u32) {
    nix::unistd::getgid().as_raw()
}

/// Relies on nix::unistd::setresuid: sets the real, effective and saved uid
/// to `uid`; `Err` carries the kernel's errno.
#[verifier::external_body]
fn sys_setresuid(uid: u32) -> (r: Result<(), i32>) {
    let id = nix::unistd::Uid::from_raw(uid);
    nix::unistd::setresuid(id, id, id).map_err(|e| e as i32)
}

/// Relies on nix::unistd::setresgid: sets the real, effective and saved gid
/// to `gid`; `Err` carries the kernel's errno.
#[verifier::external_body]
fn sys_setresgid(gid: u32) -> (r: Result<(), i32>) {
    let id = nix::unistd::Gid::from_raw(gid);
    nix::unistd::setresgid(id, id, id).map_err(|e| e as i32)
}

/// Relies on which::which_global: a `PATH` search for the named binary.
#[verifier::external_body]
fn sys_which(name: &str) -> (r: Option<String>) {
    which::which_global(name).ok().map(|p| p.to_string_lossy().into_owned())
}

/// Relies on caps::has_cap: whether the permitted set of the current thread
/// holds `CAP_SETUID` (when `setuid` is true) or `CAP_SETGID`; a probe
/// failure counts as not held.
#[verifier::external_body]
fn sys_has_cap(setuid: bool) -> (r: bool) {
    let cap = if setuid { caps::Capability::CAP_SETUID } else { caps::Capability::CAP_SETGID };
    caps::has_cap(None, caps::CapSet::Permitted, cap).unwrap_or_default()
}

/// Whether a direct map-file write is always permitted for a process whose
/// current id is `raw`: it runs as root, or it maps exactly its own id once.
pub open spec fn direct_allowed(raw: u32, mappings: Seq<IdMapping>) -> bool {
    raw == 0 || (mappings.len() == 1 && mappings[0].host_start == raw && mappings[0].length == 1)
}

/// Whether a map file may be written directly, given the probed capability:
/// exactly when [`direct_allowed`] holds of the current id, or the permitted
/// capability set holds the relevant capability.
pub open spec fn spec_can_direct(raw: u32, has_cap: bool, mappings: Seq<IdMapping>) -> bool {
    direct_allowed(raw, mappings) || has_cap
}

/// Decides the direct write, with the capability probe's answer passed in.
fn can_direct(raw: u32, has_cap: bool, mappings: &Vec<IdMapping>) -> (r: bool)
    ensures
        r == spec_can_direct(raw, has_cap, mappings@),
{
    if raw == 0 {
        return true;
    }
    if mappings.len() == 1 && mappings[0].host_start == raw && mappings[0].length == 1 {
        return true;
    }
    has_cap
}

/// The mappings with later duplicates dropped; the first occurrences keep
/// their order.
pub open spec fn spec_dedup(ms: Seq<IdMapping>) -> Seq<IdMapping>
    decreases ms.len(),
{
    if ms.len() == 0 {
        Seq::empty()
    } else if ms.drop_last().contains(ms.last()) {
        spec_dedup(ms.drop_last())
    } else {
        spec_dedup(ms.drop_last()).push(ms.last())
    }
}

/// Deduplication keeps exactly the elements that were there, each once.
pub proof fn lemma_dedup_exact(ms: Seq<IdMapping>)
    ensures
        forall|m: IdMapping| spec_dedup(ms).contains(m) <==> ms.contains(m),
        forall|i: int, j: int|
            0 <= i < j < spec_dedup(ms).len() ==> spec_dedup(ms)[i] != spec_dedup(ms)[j],
    decreases ms.len(),
{
    if ms.len() > 0 {
        let d0 = ms.drop_last();
        let l = ms.last();
        lemma_dedup_exact(d0);
        assert forall|m: IdMapping| ms.contains(m) implies (d0.contains(m) || m == l) by {
            let i = choose|i: int| 0 <= i < ms.len() && ms[i] == m;
            if i < ms.len() - 1 {
                assert(d0[i] == m);
            }
        }
        assert forall|m: IdMapping| d0.contains(m) implies ms.contains(m) by {
            let i = choose|i: int| 0 <= i < d0.len() && d0[i] == m;
            assert(ms[i] == m);
        }
        assert(ms[ms.len() - 1] == l);
        if !d0.contains(l) {
            let d = spec_dedup(d0);
            assert forall|m: IdMapping| spec_dedup(ms).contains(m) implies ms.contains(m) by {
                let i = choose|i: int|
                    0 <= i < spec_dedup(ms).len() && spec_dedup(ms)[i] == m;
                if i < d.len() {
                    assert(d.contains(m));
                } else {
                    assert(m == l);
                }
            }
            assert forall|m: IdMapping| ms.contains(m) implies spec_dedup(ms).contains(m) by {
                if m == l {
                    assert(spec_dedup(ms)[d.len() as int] == l);
                } else {
                    assert(d0.contains(m));
                    assert(d.contains(m));
                    let i = choose|i: int| 0 <= i < d.len() && d[i] == m;
                    assert(spec_dedup(ms)[i] == m);
                }
            }
            assert forall|i: int, j: int|
                0 <= i < j < spec_dedup(ms).len() implies spec_dedup(ms)[i] != spec_dedup(
                ms,
            )[j] by {
                if j < d.len() {
                } else {
                    assert(spec_dedup(ms)[j] == l);
                    assert(d.contains(d[i]));
                }
            }
        }
    }
}

/// The mappings with duplicates dropped, first occurrences kept in order.
fn dedup_mappings(ms: &Vec<IdMapping>) -> (r: Vec<IdMapping>)
    ensures
        r@ == spec_dedup(ms@),
{
    let mut out: Vec<IdMapping> = Vec::new();
    let mut i: usize = 0;
    while i < ms.len()
        invariant
            i <= ms.len(),
            out@ == spec_dedup(ms@.subrange(0, i as int)),
        decreases ms.len() - i,
    {
        let ghost prefix = ms@.subrange(0, i as int);
        let mut seen = false;
        let mut j: usize = 0;
        while j < i
            invariant
                j <= i < ms.len(),
                prefix == ms@.subrange(0, i as int),
                seen == prefix.subrange(0, j as int).contains(ms@[i as int]),
            decreases i - j,
        {
            let ghost upto = prefix.subrange(0, j as int);
            if ms[j] == ms[i] {
                seen = true;
            }
            proof {
                assert(prefix.subrange(0, j + 1) =~= upto.push(ms@[j as int]));
                if prefix.subrange(0, j + 1).contains(ms@[i as int]) && !upto.contains(
                    ms@[i as int],
                ) {
                    assert(ms@[j as int] == ms@[i as int]);
                }
                if upto.contains(ms@[i as int]) {
                    let k = choose|k: int| 0 <= k < upto.len() && upto[k] == ms@[i as int];
                    assert(prefix.subrange(0, j + 1)[k] == ms@[i as int]);
                }
                if ms@[j as int] == ms@[i as int] {
                    assert(prefix.subrange(0, j + 1)[j as int] == ms@[i as int]);
                }
            }
            j += 1;
        }
        proof {
            assert(prefix.subrange(0, i as int) =~= prefix);
            assert(ms@.subrange(0, i + 1).drop_last() =~= prefix);
            assert(ms@.subrange(0, i + 1).last() == ms@[i as int]);
        }
        if !seen {
            out.push(ms[i]);
        }
        i += 1;
    }
    proof {
        assert(ms@.subrange(0, ms@.len() as int) =~= ms@);
    }
    out
}

/// The decimal digits of `n`.
pub open spec fn spec_decimal(n: nat) -> Seq<u8>
    decreases n,
{
    if n < 10 {
        seq![(48 + n) as u8]
    } else {
        spec_decimal(n / 10) + seq![(48 + n % 10) as u8]
    }
}

/// Appends the decimal digits of `n`.
fn push_decimal(out: &mut Vec<u8>, n: u32)
    ensures
        final(out)@ == old(out)@ + spec_decimal(n as nat),
    decreases n,
{
    if n < 10 {
        out.push(48 + n as u8);
    } else {
        push_decimal(out, n / 10);
        out.push(48 + (n % 10) as u8);
        proof {
            assert(final(out)@ =~= old(out)@ + spec_decimal(n as nat));
        }
    }
}

/// One map-file line for a mapping: `<child_start> <host_start> <length>`,
/// without a line break.
pub open spec fn mapping_line(m: IdMapping) -> Seq<u8> {
    spec_decimal(m.child_start as nat) + seq![32u8] + spec_decimal(m.host_start as nat) + seq![
        32u8,
    ] + spec_decimal(m.length as nat)
}

/// The whole map-file content: one line per mapping, in order, each closed
/// by a line break.
pub open spec fn mapping_content(ms: Seq<IdMapping>) -> Seq<u8>
    decreases ms.len(),
{
    if ms.len() == 0 {
        Seq::empty()
    } else {
        mapping_content(ms.drop_last()) + mapping_line(ms.last()) + seq![10u8]
    }
}

/// Appends the line for mapping `m` to `out`.
fn push_mapping_line(out: &mut Vec<u8>, m: &IdMapping)
    ensures
        final(out)@ == old(out)@ + mapping_line(*m),
{
    push_decimal(out, m.child_start);
    out.push(32);
    push_decimal(out, m.host_start);
    out.push(32);
    push_decimal(out, m.length);
    proof {
        assert(final(out)@ =~= old(out)@ + mapping_line(*m));
    }
}

/// The exact bytes written to a `uid_map` or `gid_map` file for `ms`.
pub fn format_mappings(ms: &Vec<IdMapping>) -> (r: Vec<u8>)
    ensures
        r@ == mapping_content(ms@),
{
    let mut out: Vec<u8> = Vec::new();
    let mut i: usize = 0;
    while i < ms.len()
        invariant
            i <= ms.len(),
            out@ == mapping_content(ms@.subrange(0, i as int)),
        decreases ms.len() - i,
    {
        let ghost prefix = ms@.subrange(0, i as int);
        push_mapping_line(&mut out, &ms[i]);
        out.push(10);
        proof {
            assert(ms@.subrange(0, i + 1).drop_last() =~= prefix);
            assert(ms@.subrange(0, i + 1).last() == ms@[i as int]);
            assert(out@ =~= mapping_content(ms@.subrange(0, i + 1)));
        }
        i += 1;
    }
    proof {
        assert(ms@.subrange(0, ms@.len() as int) =~= ms@);
    }
    out
}

/// The helper's argument list for `ms`: per mapping, its child start, host
/// start and length, in decimal.
pub open spec fn mapping_args(ms: Seq<IdMapping>) -> Seq<Seq<u8>>
    decreases ms.len(),
{
    if ms.len() == 0 {
        Seq::empty()
    } else {
        mapping_args(ms.drop_last()) + seq![
            spec_decimal(ms.last().child_start as nat),
            spec_decimal(ms.last().host_start as nat),
            spec_decimal(ms.last().length as nat),
        ]
    }
}

/// The exact argument list handed to `newuidmap`/`newgidmap`: the target pid,
/// then each mapping's three numbers.
pub fn helper_args(pid: u32, ms: &Vec<IdMapping>) -> (r: Vec<Vec<u8>>)
    ensures
        r@.len() == 1 + 3 * ms@.len(),
        r@[0]@ == spec_decimal(pid as nat),
        r@.map_values(|a: Vec<u8>| a@) == seq![spec_decimal(pid as nat)] + mapping_args(ms@),
{
    let mut out: Vec<Vec<u8>> = Vec::new();
    let mut first: Vec<u8> = Vec::new();
    push_decimal(&mut first, pid);
    out.push(first);
    let mut i: usize = 0;
    while i < ms.len()
        invariant
            i <= ms.len(),
            out@.len() == 1 + 3 * i,
            out@.map_values(|a: Vec<u8>| a@) == seq![spec_decimal(pid as nat)] + mapping_args(
                ms@.subrange(0, i as int),
            ),
        decreases ms.len() - i,
    {
        let ghost before = out@.map_values(|a: Vec<u8>| a@);
        let mut child: Vec<u8> = Vec::new();
        push_decimal(&mut child, ms[i].child_start);
        out.push(child);
        let mut host: Vec<u8> = Vec::new();
        push_decimal(&mut host, ms[i].host_start);
        out.push(host);
        let mut length: Vec<u8> = Vec::new();
        push_decimal(&mut length, ms[i].length);
        out.push(length);
        proof {
            assert(ms@.subrange(0, i + 1).drop_last() =~= ms@.subrange(0, i as int));
            assert(ms@.subrange(0, i + 1).last() == ms@[i as int]);
            assert(out@.map_values(|a: Vec<u8>| a@) =~= before + seq![
                spec_decimal(ms@[i as int].child_start as nat),
                spec_decimal(ms@[i as int].host_start as nat),
                spec_decimal(ms@[i as int].length as nat),
            ]);
            assert(out@.map_values(|a: Vec<u8>| a@) =~= seq![spec_decimal(pid as nat)]
                + mapping_args(ms@.subrange(0, i + 1)));
        }
        i += 1;
    }
    proof {
        assert(ms@.subrange(0, ms@.len() as int) =~= ms@);
        assert(out@[0]@ == out@.map_values(|a: Vec<u8>| a@)[0]);
    }
    out
}

/// The exact bytes written to `/proc/<pid>/setgroups` before a direct
/// `gid_map` write: `deny`.
pub fn setgroups_deny_content() -> (r: Vec<u8>)
    ensures
        r@ == seq![100u8, 101u8, 110u8, 121u8],
{
    let mut out: Vec<u8> = Vec::new();
    out.push(100);
    out.push(101);
    out.push(110);
    out.push(121);
    proof {
        assert(out@ =~= seq![100u8, 101u8, 110u8, 121u8]);
    }
    out
}

/// How one map file of the target process is to be written.
#[derive(Debug, Clone, PartialEq, Eq)]
pub enum MapAction {
    /// Write `content` into the map file itself.
    Direct { content: Vec<u8> },
    /// Run the helper at `tool` with `args`.
    Helper { tool: String, args: Vec<Vec<u8>> },
}

/// The writes and helper invocations that install the id mappings of one
/// process.
#[derive(Debug, Clone, PartialEq, Eq)]
pub struct MappingPlan {
    /// How `/proc/<pid>/uid_map` is written.
    pub uid_action: MapAction,
    /// How `/proc/<pid>/gid_map` is written.
    pub gid_action: MapAction,
    /// Whether `deny` must be written to `/proc/<pid>/setgroups` first; set
    /// exactly when the gid map is written directly.
    pub deny_setgroups: bool,
}

impl Syscall {
    /// Discovers the `newuidmap` and `newgidmap` helpers on `PATH`.
    pub fn find_tools() -> (r: IdMappingTools) {
        IdMappingTools { uid_map: sys_which("newuidmap"), gid_map: sys_which("newgidmap") }
    }

    /// Plans the writes that install `users` and `groups` as the uid and gid
    /// mappings of process `pid`, with the current ids and the capability
    /// probes' answers passed in.
    ///
    /// Each set is deduplicated. A map file is written directly exactly when
    /// [`spec_can_direct`] holds — the caller is root, maps exactly its own
    /// id once, or holds the matching capability; otherwise the discovered
    /// helper is used; a step that can do neither fails the plan with
    /// `NoTools`. A direct plan carries exactly the map-file bytes of
    /// [`mapping_content`]; a helper plan carries exactly the pid and the
    /// mapping numbers as arguments; `setgroups` is denied exactly when the
    /// gid map is written directly.
    pub fn plan_mappings(
        pid: u32,
        users: &Vec<IdMapping>,
        groups: &Vec<IdMapping>,
        tools: IdMappingTools,
        uid: u32,
        gid: u32,
        cap_setuid: bool,
        cap_setgid: bool,
    ) -> (r: Result<MappingPlan, WriteMappingsError>)
        ensures
            r is Err <==> ((!spec_can_direct(uid, cap_setuid, spec_dedup(users@))
                && tools.uid_map is None) || (!spec_can_direct(gid, cap_setgid, spec_dedup(groups@))
                && tools.gid_map is None)),
            r matches Err(e) ==> e.kind == WriteMappingsErrorKind::NoTools,
            r matches Ok(p) ==> (p.uid_action is Direct <==> spec_can_direct(
                uid,
                cap_setuid,
                spec_dedup(users@),
            )),
            r matches Ok(p) ==> (p.gid_action is Direct <==> spec_can_direct(
                gid,
                cap_setgid,
                spec_dedup(groups@),
            )),
            r matches Ok(p) ==> match p.uid_action {
                MapAction::Direct { content } => content@ == mapping_content(spec_dedup(users@)),
                MapAction::Helper { tool, args } => tools.uid_map matches Some(t) && tool@ == t@
                    && args@.map_values(|a: Vec<u8>| a@) == seq![spec_decimal(pid as nat)]
                    + mapping_args(spec_dedup(users@)),
            },
            r matches Ok(p) ==> match p.gid_action {
                MapAction::Direct { content } => content@ == mapping_content(spec_dedup(groups@))
                    && p.deny_setgroups,
                MapAction::Helper { tool, args } => tools.gid_map matches Some(t) && tool@ == t@
                    && args@.map_values(|a: Vec<u8>| a@) == seq![spec_decimal(pid as nat)]
                    + mapping_args(spec_dedup(groups@)) && !p.deny_setgroups,
            },
            r matches Ok(p) ==> (p.deny_setgroups <==> p.gid_action is Direct),
    {
        let users = dedup_mappings(users);
        let groups = dedup_mappings(groups);

        let gid_possible = can_direct(gid, cap_setgid, &groups) || tools.gid_map.is_some();
        if !gid_possible {
            return Err(WriteMappingsError { kind: WriteMappingsErrorKind::NoTools });
        }

        let uid_action = if can_direct(uid, cap_setuid, &users) {
            MapAction::Direct { content: format_mappings(&users) }
        } else if let Some(tool) = tools.uid_map {
            MapAction::Helper { tool, args: helper_args(pid, &users) }
        } else {
            return Err(WriteMappingsError { kind: WriteMappingsErrorKind::NoTools });
        };

        let (gid_action, deny_setgroups) = if can_direct(gid, cap_setgid, &groups) {
            (MapAction::Direct { content: format_mappings(&groups) }, true)
        } else if let Some(tool) = tools.gid_map {
            (MapAction::Helper { tool, args: helper_args(pid, &groups) }, false)
        } else {
            return Err(WriteMappingsError { kind: WriteMappingsErrorKind::NoTools });
        };

        Ok(MappingPlan { uid_action, gid_action, deny_setgroups })
    }

    /// Plans the writes that install `users` and `groups` as the uid and gid
    /// mappings of process `pid`: probes the current real uid and gid and
    /// the permitted capability set, then plans exactly as
    /// [`Syscall::plan_mappings`] does for those answers.
    pub fn write_mappings(
        pid: u32,
        users: &Vec<IdMapping>,
        groups: &Vec<IdMapping>,
        tools: IdMappingTools,
    ) -> (r: Result<MappingPlan, WriteMappingsError>)
        ensures
            r matches Err(e) ==> e.kind == WriteMappingsErrorKind::NoTools && (tools.uid_map
                is None || tools.gid_map is None),
            tools.uid_map is Some && tools.gid_map is Some ==> r is Ok,
            r matches Ok(p) ==> match p.uid_action {
                MapAction::Direct { content } => content@ == mapping_content(spec_dedup(users@)),
                MapAction::Helper { tool, args } => tools.uid_map matches Some(t) && tool@ == t@
                    && args@.map_values(|a: Vec<u8>| a@) == seq![spec_decimal(pid as nat)]
                    + mapping_args(spec_dedup(users@)),
            },
            r matches Ok(p) ==> match p.gid_action {
                MapAction::Direct { content } => content@ == mapping_content(spec_dedup(groups@))
                    && p.deny_setgroups,
                MapAction::Helper { tool, args } => tools.gid_map matches Some(t) && tool@ == t@
                    && args@.map_values(|a: Vec<u8>| a@) == seq![spec_decimal(pid as nat)]
                    + mapping_args(spec_dedup(groups@)) && !p.deny_setgroups,
            },
            r matches Ok(p) ==> (p.deny_setgroups <==> p.gid_action is Direct),
    {
        let uid = sys_getuid();
        let gid = sys_getgid();
        let cap_setuid = sys_has_cap(true);
        let cap_setgid = sys_has_cap(false);
        Self::plan_mappings(pid, users, groups, tools, uid, gid, cap_setuid, cap_setgid)
    }

    /// Assumes the sandbox ids: sets real, effective and saved uid to `uid`,
    /// then the same for `gid`. On failure the error carries the kernel's
    /// errno; which errno the kernel answers with is its own — no contract
    /// binds it.
    pub fn set_ids(uid: u32, gid: u32) -> (r: Result<(), SetIdsError>) {
        if let Err(errno) = sys_setresuid(uid) {
            return Err(SetIdsError { errno });
        }
        if let Err(errno) = sys_setresgid(gid) {
            return Err(SetIdsError { errno });
        }
        Ok(())
    }
}

} // verus!
