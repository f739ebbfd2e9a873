//! Variable expansion in byte strings.
//!
//! `${name}` references are replaced by the value bound to `name` in a
//! [`VarMap`]; `\$`, `\\`, `\n`, `\r` and `\t` escapes are rewritten to the
//! escaped byte. The expansion is specified exactly by [`spec_expand`] and the
//! executable [`expand`] is proved to return precisely that result.

use vstd::prelude::*;

use crate::buf::bytes_eq;
use crate::buf::copy_range;
use crate::buf::push_all;
use crate::buf::push_range;

verus! {

/// The reason an expansion failed.
#[derive(Debug, Clone, PartialEq, Eq)]
pub enum ExpandErrorKind {
    /// An unknown variable was referenced.
    UnknownVariable { name: Vec<u8> },
    /// An incomplete expansion was found.
    IncompleteExpansion,
    /// An invalid escape sequence was found.
    InvalidEscapeSequence,
}

/// Error expanding variables in a byte string.
#[derive(Debug, Clone, PartialEq, Eq)]
pub struct ExpandError {
    pub kind: ExpandErrorKind,
    pub offset: usize,
}

impl ExpandError {
    pub fn new(offset: usize, kind: ExpandErrorKind) -> (r: Self)
        ensures
            r.offset == offset,
            r.kind == kind,
    {
        Self { kind, offset }
    }

    pub fn kind(&self) -> (r: &ExpandErrorKind)
        ensures
            *r == self.kind,
    {
        &self.kind
    }

    pub fn offset(&self) -> (r: usize)
        ensures
            r == self.offset,
    {
        self.offset
    }
}

/// The mathematical failure cases of an expansion.
pub enum ExpandFail {
    UnknownVariable { name: Seq<u8> },
    IncompleteExpansion,
    InvalidEscapeSequence,
}

/// What an expansion yields: the expanded text, or a failure at an offset.
pub enum ExpandOutcome {
    Done { text: Seq<u8> },
    Fail { offset: int, kind: ExpandFail },
}

/// Whether an executable error carries the given mathematical failure.
pub open spec fn kind_corresponds(k: ExpandErrorKind, f: ExpandFail) -> bool {
    match (k, f) {
        (
            ExpandErrorKind::UnknownVariable { name },
            ExpandFail::UnknownVariable { name: spec_name },
        ) => name@ == spec_name,
        (ExpandErrorKind::IncompleteExpansion, ExpandFail::IncompleteExpansion) => true,
        (ExpandErrorKind::InvalidEscapeSequence, ExpandFail::InvalidEscapeSequence) => true,
        _ => false,
    }
}

/// Index of the first occurrence of `b` in `s` at or after `from`; `s.len()`
/// when there is none.
pub open spec fn find_from(s: Seq<u8>, from: int, b: u8) -> int
    recommends
        0 <= from,
    decreases s.len() - from,
{
    if from < 0 || from >= s.len() {
        s.len() as int
    } else if s[from] == b {
        from
    } else {
        find_from(s, from + 1, b)
    }
}

/// What a byte after a backslash escapes to, if anything.
pub open spec fn spec_escape_char(b: u8) -> Option<u8> {
    if b == 36 {
        Some(36u8)  // '$'
    } else if b == 92 {
        Some(92u8)  // '\\'
    } else if b == 110 {
        Some(10u8)  // 'n'
    } else if b == 114 {
        Some(13u8)  // 'r'
    } else if b == 116 {
        Some(9u8)  // 't'
    } else {
        None
    }
}

/// The final result once no further rewriting happens: when nothing was
/// rewritten the input is returned whole, otherwise the unprocessed tail is
/// appended to the accumulator.
pub open spec fn expand_finish(v: Seq<u8>, acc: Seq<u8>, ofs: int) -> ExpandOutcome {
    if acc.len() == 0 {
        ExpandOutcome::Done { text: v }
    } else {
        ExpandOutcome::Done { text: acc + v.subrange(ofs, v.len() as int) }
    }
}

/// The first match position never lies before the start of the search.
pub proof fn lemma_find_from_bounds(s: Seq<u8>, from: int, b: u8)
    requires
        0 <= from <= s.len(),
    ensures
        from <= find_from(s, from, b) <= s.len(),
    decreases s.len() - from,
{
    if from < s.len() && s[from] != b {
        lemma_find_from_bounds(s, from + 1, b);
    }
}

/// One pass of the expansion loop, starting at offset `ofs` with the output
/// built so far in `acc`. The first backslash in the remaining input is
/// handled before any `$`, exactly as the executable loop does.
pub open spec fn expand_from(
    v: Seq<u8>,
    ctx: Map<Seq<u8>, Seq<u8>>,
    ofs: int,
    acc: Seq<u8>,
) -> ExpandOutcome
    recommends
        0 <= ofs,
    decreases v.len() - ofs,
    via expand_from_decreases
{
    if ofs < 0 || ofs >= v.len() {
        expand_finish(v, acc, ofs)
    } else {
        let bs = find_from(v, ofs, 92);
        if bs < v.len() {
            if bs + 1 < v.len() && spec_escape_char(v[bs + 1]) is Some {
                expand_from(
                    v,
                    ctx,
                    bs + 2,
                    acc + v.subrange(ofs, bs) + seq![spec_escape_char(v[bs + 1])->0],
                )
            } else {
                ExpandOutcome::Fail { offset: bs, kind: ExpandFail::InvalidEscapeSequence }
            }
        } else {
            let ds = find_from(v, ofs, 36);
            if ds >= v.len() {
                expand_finish(v, acc, ofs)
            } else {
                let start = ds + 1;
                if !(start < v.len() && v[start] == 123) {
                    expand_from(v, ctx, start, acc + v.subrange(ofs, start))
                } else {
                    let nstart = start + 1;
                    let close = find_from(v, nstart, 125);
                    if close >= v.len() {
                        ExpandOutcome::Fail {
                            offset: nstart,
                            kind: ExpandFail::IncompleteExpansion,
                        }
                    } else {
                        let name = v.subrange(nstart, close);
                        if ctx.dom().contains(name) {
                            expand_from(v, ctx, close + 1, acc + v.subrange(ofs, ds) + ctx[name])
                        } else {
                            ExpandOutcome::Fail {
                                offset: nstart,
                                kind: ExpandFail::UnknownVariable { name },
                            }
                        }
                    }
                }
            }
        }
    }
}

#[via_fn]
proof fn expand_from_decreases(v: Seq<u8>, ctx: Map<Seq<u8>, Seq<u8>>, ofs: int, acc: Seq<u8>) {
    if 0 <= ofs < v.len() {
        lemma_find_from_bounds(v, ofs, 92);
        let bs = find_from(v, ofs, 92);
        if bs >= v.len() {
            lemma_find_from_bounds(v, ofs, 36);
            let ds = find_from(v, ofs, 36);
            if ds < v.len() && ds + 1 < v.len() && v[ds + 1] == 123 {
                lemma_find_from_bounds(v, ds + 2, 125);
            }
        }
    }
}

/// The expansion of `v` under the bindings `ctx`.
pub open spec fn spec_expand(v: Seq<u8>, ctx: Map<Seq<u8>, Seq<u8>>) -> ExpandOutcome {
    expand_from(v, ctx, 0, Seq::empty())
}

/// Variable bindings for [`expand`]: a name-to-value map of byte strings.
pub struct VarMap {
    entries: Vec<(Vec<u8>, Vec<u8>)>,
}

/// The map described by a list of bindings; an earlier entry shadows a later
/// one with the same name.
pub closed spec fn map_of(entries: Seq<(Vec<u8>, Vec<u8>)>) -> Map<Seq<u8>, Seq<u8>>
    decreases entries.len(),
{
    if entries.len() == 0 {
        Map::empty()
    } else {
        map_of(entries.drop_first()).insert(entries[0].0@, entries[0].1@)
    }
}

proof fn lemma_map_of_first_match(s: Seq<(Vec<u8>, Vec<u8>)>, k: Seq<u8>, i: int)
    requires
        0 <= i < s.len(),
        s[i].0@ == k,
        forall|j: int| 0 <= j < i ==> #[trigger] s[j].0@ != k,
    ensures
        map_of(s).dom().contains(k),
        map_of(s)[k] == s[i].1@,
    decreases i,
{
    if i > 0 {
        lemma_map_of_first_match(s.drop_first(), k, i - 1);
    }
}

proof fn lemma_map_of_absent(s: Seq<(Vec<u8>, Vec<u8>)>, k: Seq<u8>)
    requires
        forall|j: int| 0 <= j < s.len() ==> #[trigger] s[j].0@ != k,
    ensures
        !map_of(s).dom().contains(k),
    decreases s.len(),
{
    if s.len() > 0 {
        lemma_map_of_absent(s.drop_first(), k);
    }
}

impl View for VarMap {
    type V = Map<Seq<u8>, Seq<u8>>;

    closed spec fn view(&self) -> Map<Seq<u8>, Seq<u8>> {
        map_of(self.entries@)
    }
}

impl VarMap {
    /// An empty set of bindings.
    pub fn new() -> (r: Self)
        ensures
            r@ == Map::<Seq<u8>, Seq<u8>>::empty(),
    {
        VarMap { entries: Vec::new() }
    }

    /// Binds `name` to `value`, replacing any earlier binding of `name`.
    pub fn set(&mut self, name: Vec<u8>, value: Vec<u8>)
        ensures
            final(self)@ == old(self)@.insert(name@, value@),
    {
        let ghost old_entries = self.entries@;
        self.entries.insert(0, (name, value));
        proof {
            assert(self.entries@.drop_first() =~= old_entries);
        }
    }

    /// Looks a name up, returning the value of its first binding.
    pub fn get(&self, name: &[u8]) -> (r: Option<&Vec<u8>>)
        ensures
            match r {
                Some(v) => self@.dom().contains(name@) && v@ == self@[name@],
                None => !self@.dom().contains(name@),
            },
    {
        let mut i: usize = 0;
        while i < self.entries.len()
            invariant
                i <= self.entries.len(),
                forall|j: int| 0 <= j < i ==> #[trigger] self.entries@[j].0@ != name@,
            decreases self.entries.len() - i,
        {
            if bytes_eq(self.entries[i].0.as_slice(), name) {
                proof {
                    lemma_map_of_first_match(self.entries@, name@, i as int);
                }
                return Some(&self.entries[i].1);
            }
            i += 1;
        }
        proof {
            lemma_map_of_absent(self.entries@, name@);
        }
        None
    }
}

/// Index of the first occurrence of `b` in `s` at or after `from`; `s.len()`
/// when there is none.
fn find_byte(s: &[u8], from: usize, b: u8) -> (i: usize)
    requires
        from <= s.len(),
    ensures
        i == find_from(s@, from as int, b),
        from <= i <= s.len(),
        i < s.len() ==> s@[i as int] == b,
{
    let mut j: usize = from;
    while j < s.len()
        invariant
            from <= j <= s.len(),
            find_from(s@, from as int, b) == find_from(s@, j as int, b),
        decreases s.len() - j,
    {
        if s[j] == b {
            return j;
        }
        j += 1;
    }
    j
}

/// The byte an escape sequence stands for, if the sequence is valid.
fn escape_char(b: u8) -> (r: Option<u8>)
    ensures
        r == spec_escape_char(b),
{
    match b {
        36 => Some(36),
        92 => Some(92),
        110 => Some(10),
        114 => Some(13),
        116 => Some(9),
        _ => None,
    }
}

/// Expands `${name}` references and backslash escapes in `value`.
///
/// Returns exactly what [`spec_expand`] describes: the expanded bytes, or the
/// first failure together with its byte offset.
pub fn expand(value: &[u8], context: &VarMap) -> (r: Result<Vec<u8>, ExpandError>)
    ensures
        match spec_expand(value@, context@) {
            ExpandOutcome::Done { text } => r matches Ok(out) && out@ == text,
            ExpandOutcome::Fail { offset, kind } => r matches Err(e) && e.offset == offset
                && kind_corresponds(e.kind, kind),
        },
{
    let mut result: Vec<u8> = Vec::new();
    let mut ofs: usize = 0;

    loop
        invariant
            ofs <= value.len(),
            spec_expand(value@, context@) == expand_from(
                value@,
                context@,
                ofs as int,
                result@,
            ),
        ensures
            ofs <= value.len(),
            spec_expand(value@, context@) == expand_finish(value@, result@, ofs as int),
        decreases value.len() - ofs,
    {
        let ghost entry_acc = result@;
        if ofs >= value.len() {
            break;
        }

        let bs = find_byte(value, ofs, 92);
        if bs < value.len() {
            if bs + 1 < value.len() {
                match escape_char(value[bs + 1]) {
                    Some(c) => {
                        push_range(&mut result, value, ofs, bs);
                        result.push(c);
                        proof {
                            assert(result@ =~= entry_acc + value@.subrange(
                                ofs as int,
                                bs as int,
                            ) + seq![spec_escape_char(value@[bs + 1])->0]);
                        }
                        ofs = bs + 2;
                        continue;
                    },
                    None => {
                        return Err(
                            ExpandError::new(bs, ExpandErrorKind::InvalidEscapeSequence),
                        );
                    },
                }
            } else {
                return Err(ExpandError::new(bs, ExpandErrorKind::InvalidEscapeSequence));
            }
        }

        let ds = find_byte(value, ofs, 36);
        if ds >= value.len() {
            break;
        }

        let start = ds + 1;
        if !(start < value.len() && value[start] == 123) {
            push_range(&mut result, value, ofs, start);
            ofs = start;
            continue;
        }

        let nstart = start + 1;
        let close = find_byte(value, nstart, 125);
        if close >= value.len() {
            return Err(ExpandError::new(nstart, ExpandErrorKind::IncompleteExpansion));
        }

        let name = copy_range(value, nstart, close);
        match context.get(name.as_slice()) {
            Some(v) => {
                push_range(&mut result, value, ofs, ds);
                push_all(&mut result, v.as_slice());
                proof {
                    assert(result@ =~= entry_acc + value@.subrange(ofs as int, ds as int)
                        + context@[name@]);
                }
                ofs = close + 1;
            },
            None => {
                return Err(
                    ExpandError::new(
                        nstart,
                        ExpandErrorKind::UnknownVariable { name },
                    ),
                );
            },
        }
    }

    if result.len() == 0 {
        let whole = copy_range(value, 0, value.len());
        proof {
            assert(whole@ =~= value@);
        }
        Ok(whole)
    } else {
        push_range(&mut result, value, ofs, value.len());
        Ok(result)
    }
}

} // verus!
