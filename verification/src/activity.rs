//! What a provider reports it has open, and the bookkeeping Runtime derives from it: which
//! processes identify exactly one conversation, which live conversations a viewer can attach to,
//! and when the proof of which window owns which process must be taken again.

use vstd::prelude::*;

use vstd::utf8::encode_utf8;

use crate::text::str_eq;

verus! {

/// One provider process and the native conversation it holds.
#[derive(Debug)]
pub struct NativeProcessBinding {
    pub pid: u32,
    pub native: String,
    /// Whether the provider publishes its own terminal route to this process.
    pub official_terminal: bool,
}

/// What a provider says it has open.
#[derive(Debug)]
pub struct NativeProcessActivity {
    pub processes: Vec<NativeProcessBinding>,
    /// Native conversations the provider reports live.
    pub live: Vec<String>,
    /// Native conversations the provider reports active lately.
    pub active: Vec<String>,
}

/// Whether the binding at `i` is the first one naming its process.
pub open spec fn first_of(ps: Seq<NativeProcessBinding>, i: int) -> bool {
    &&& 0 <= i < ps.len()
    &&& forall|j: int| 0 <= j < i ==> ps[j].pid != ps[i].pid
}

/// Whether every binding of a process names the same conversation.
pub open spec fn one_conversation(ps: Seq<NativeProcessBinding>, pid: u32) -> bool {
    forall|i: int, j: int|
        0 <= i < ps.len() && 0 <= j < ps.len() && ps[i].pid == pid && ps[j].pid == pid
            ==> ps[i].native@ == ps[j].native@
}

/// Whether the binding at `i` is the one kept for its process.
pub open spec fn kept(ps: Seq<NativeProcessBinding>, i: int) -> bool {
    first_of(ps, i) && one_conversation(ps, ps[i].pid)
}

/// Whether a binding is the one kept for its process.
pub open spec fn kept_at(ps: Seq<NativeProcessBinding>, b: NativeProcessBinding) -> bool {
    exists|i: int| #[trigger] kept(ps, i) && b == ps[i]
}

/// Whether a list holds a text.
pub fn holds_text(values: &Vec<String>, value: &str) -> (r: bool)
    ensures
        r == exists|i: int| 0 <= i < values@.len() && values@[i]@ == value@,
{
    let mut i: usize = 0;
    while i < values.len()
        invariant
            i <= values.len(),
            forall|j: int| 0 <= j < i ==> values@[j]@ != value@,
        decreases values.len() - i,
    {
        if str_eq(values[i].as_str(), value) {
            return true;
        }
        i = i + 1;
    }
    false
}

fn is_first(ps: &Vec<NativeProcessBinding>, i: usize) -> (r: bool)
    requires
        i < ps.len(),
    ensures
        r == first_of(ps@, i as int),
{
    let mut j: usize = 0;
    while j < i
        invariant
            i < ps.len(),
            j <= i,
            forall|k: int| 0 <= k < j ==> ps@[k].pid != ps@[i as int].pid,
        decreases i - j,
    {
        if ps[j].pid == ps[i].pid {
            return false;
        }
        j = j + 1;
    }
    true
}

fn names_one(ps: &Vec<NativeProcessBinding>, i: usize) -> (r: bool)
    requires
        i < ps.len(),
    ensures
        r == one_conversation(ps@, ps@[i as int].pid),
{
    let pid = ps[i].pid;
    let mut j: usize = 0;
    while j < ps.len()
        invariant
            i < ps.len(),
            pid == ps@[i as int].pid,
            j <= ps.len(),
            forall|k: int| 0 <= k < j && ps@[k].pid == pid ==> ps@[k].native@ == ps@[i as int].native@,
        decreases ps.len() - j,
    {
        if ps[j].pid == pid && !str_eq(ps[j].native.as_str(), ps[i].native.as_str()) {
            return false;
        }
        j = j + 1;
    }
    true
}

/// Insert a binding into a list ordered by ascending process, before the first larger one.
fn insert_by_pid<'a>(out: &mut Vec<&'a NativeProcessBinding>, binding: &'a NativeProcessBinding) -> (p: usize)
    requires
        forall|a: int, b: int| 0 <= a < b < old(out)@.len() ==> old(out)@[a].pid < old(out)@[b].pid,
        forall|k: int| 0 <= k < old(out)@.len() ==> old(out)@[k].pid != binding.pid,
    ensures
        p <= old(out)@.len(),
        final(out)@ == old(out)@.insert(p as int, binding),
        forall|a: int, b: int| 0 <= a < b < final(out)@.len() ==> final(out)@[a].pid < final(out)@[b].pid,
{
    let pid = binding.pid;
    let mut p: usize = 0;
    while p < out.len() && out[p].pid < pid
        invariant
            p <= out@.len(),
            out@ == old(out)@,
            forall|a: int| 0 <= a < p ==> out@[a].pid < pid,
        decreases out@.len() - p,
    {
        p = p + 1;
    }
    let ghost before = out@;
    out.insert(p, binding);
    proof {
        assert forall|a: int, b: int| 0 <= a < b < out@.len() implies out@[a].pid < out@[b].pid by {
            if p < before.len() {
                assert(before[p as int].pid > pid);
            }
            if b < p {
                assert(out@[a] == before[a]);
                assert(out@[b] == before[b]);
            } else if b == p {
                assert(out@[a] == before[a]);
            } else if a < p {
                assert(out@[a] == before[a]);
                assert(out@[b] == before[b - 1]);
            } else if a == p {
                assert(out@[b] == before[b - 1]);
                if b - 1 > p {
                    assert(before[p as int].pid < before[b - 1].pid);
                }
            } else {
                assert(out@[a] == before[a - 1]);
                assert(out@[b] == before[b - 1]);
            }
        }
    }
    p
}

/// Process bindings that identify one conversation rather than a multiplexed set: for each
/// process whose bindings all name the same conversation, its first binding, in ascending
/// process order. A process holding several conversations gets none, so a single-screen
/// terminal is never assigned to an arbitrary one of them.
pub fn unambiguous_processes(activity: &NativeProcessActivity) -> (r: Vec<&NativeProcessBinding>)
    ensures
        forall|k: int| 0 <= k < r@.len() ==> #[trigger] kept_at(activity.processes@, *r@[k]),
        forall|i: int| kept(activity.processes@, i) ==> exists|k: int| 0 <= k < r@.len() && #[trigger] r@[k]
            == activity.processes@[i],
        forall|a: int, b: int| 0 <= a < b < r@.len() ==> r@[a].pid < r@[b].pid,
{
    let ps = &activity.processes;
    let mut out: Vec<&NativeProcessBinding> = Vec::new();
    let ghost mut idx: Seq<int> = Seq::empty();
    let mut i: usize = 0;
    while i < ps.len()
        invariant
            i <= ps.len(),
            ps == &activity.processes,
            idx.len() == out@.len(),
            forall|k: int| 0 <= k < out@.len() ==> 0 <= #[trigger] idx[k] < i && kept(ps@, idx[k]) && out@[k]
                == ps@[idx[k]],
            forall|x: int| 0 <= x < i && kept(ps@, x) ==> exists|k: int| 0 <= k < idx.len() && #[trigger] idx[k] == x,
            forall|a: int, b: int| 0 <= a < b < out@.len() ==> out@[a].pid < out@[b].pid,
        decreases ps.len() - i,
    {
        if is_first(ps, i) && names_one(ps, i) {
            proof {
                assert forall|k: int| 0 <= k < out@.len() implies out@[k].pid != ps@[i as int].pid by {
                    assert(idx[k] < i);
                }
            }
            let ghost before_idx = idx;
            let p = insert_by_pid(&mut out, &ps[i]);
            proof {
                idx = before_idx.insert(p as int, i as int);
                assert forall|k: int| 0 <= k < out@.len() implies 0 <= #[trigger] idx[k] < i + 1 && kept(ps@, idx[k])
                    && out@[k] == ps@[idx[k]] by {
                    if k > p {
                        assert(idx[k] == before_idx[k - 1]);
                    } else if k < p {
                        assert(idx[k] == before_idx[k]);
                    }
                }
                assert forall|x: int| 0 <= x < i + 1 && kept(ps@, x) implies exists|k: int|
                    0 <= k < idx.len() && #[trigger] idx[k] == x by {
                    if x == i {
                        assert(idx[p as int] == x);
                    } else {
                        let k = choose|k: int| 0 <= k < before_idx.len() && before_idx[k] == x;
                        if k < p {
                            assert(idx[k] == x);
                        } else {
                            assert(idx[k + 1] == x);
                        }
                    }
                }
            }
        }
        i = i + 1;
    }
    proof {
        assert forall|k: int| 0 <= k < out@.len() implies #[trigger] kept_at(activity.processes@, *out@[k]) by {
            assert(kept(ps@, idx[k]) && out@[k] == ps@[idx[k]]);
        }
        assert forall|x: int| kept(activity.processes@, x) implies exists|k: int| 0 <= k < out@.len()
            && #[trigger] out@[k] == activity.processes@[x] by {
            let k = choose|k: int| 0 <= k < idx.len() && idx[k] == x;
            assert(out@[k] == ps@[x]);
        }
    }
    out
}

/// Whether a process holds a conversation the provider reports live.
pub open spec fn live_binding(activity: NativeProcessActivity, b: NativeProcessBinding) -> bool {
    exists|j: int| 0 <= j < activity.live@.len() && activity.live@[j]@ == b.native@
}

/// Insert a value into a strictly ascending list unless it is already there.
fn insert_ascending(values: &mut Vec<u32>, value: u32)
    requires
        forall|a: int, b: int| 0 <= a < b < old(values)@.len() ==> old(values)@[a] < old(values)@[b],
    ensures
        final(values)@.to_set() == old(values)@.to_set().insert(value),
        forall|a: int, b: int| 0 <= a < b < final(values)@.len() ==> final(values)@[a] < final(values)@[b],
{
    let mut p: usize = 0;
    while p < values.len() && values[p] < value
        invariant
            p <= values@.len(),
            values@ == old(values)@,
            forall|a: int| 0 <= a < p ==> values@[a] < value,
        decreases values@.len() - p,
    {
        p = p + 1;
    }
    if p < values.len() && values[p] == value {
        assert(values@.to_set().insert(value) =~= values@.to_set()) by {
            assert(values@.to_set().contains(values@[p as int]));
        }
        return;
    }
    let ghost before = values@;
    values.insert(p, value);
    proof {
        assert(values@ == before.insert(p as int, value));
        assert forall|a: int, b: int| 0 <= a < b < values@.len() implies values@[a] < values@[b] by {
            if p < before.len() {
                assert(before[p as int] > value);
            }
            if b < p {
                assert(values@[a] == before[a]);
                assert(values@[b] == before[b]);
            } else if b == p {
                assert(values@[a] == before[a]);
            } else if a < p {
                assert(values@[a] == before[a]);
                assert(values@[b] == before[b - 1]);
            } else if a == p {
                assert(values@[b] == before[b - 1]);
                if b - 1 > p {
                    assert(before[p as int] < before[b - 1]);
                }
            } else {
                assert(values@[a] == before[a - 1]);
                assert(values@[b] == before[b - 1]);
            }
        }
        assert forall|x: u32| #[trigger] values@.to_set().contains(x) == before.to_set().insert(value).contains(x) by {
            if values@.to_set().contains(x) {
                let k = values@.index_of(x);
                if k < p {
                    assert(before[k] == x);
                } else if k > p {
                    assert(before[k - 1] == x);
                }
            }
            if before.to_set().contains(x) {
                let k = before.index_of(x);
                if k < p {
                    assert(values@[k] == x);
                } else {
                    assert(values@[k + 1] == x);
                }
            }
            if x == value {
                assert(values@[p as int] == x);
            }
        }
        assert(values@.to_set() =~= before.to_set().insert(value));
    }
}

/// The processes holding a conversation the provider reports live, each once, ascending.
pub fn live_pids(activity: &NativeProcessActivity) -> (r: Vec<u32>)
    ensures
        forall|pid: u32| #[trigger] r@.contains(pid) <==> exists|i: int|
            0 <= i < activity.processes@.len() && activity.processes@[i].pid == pid && live_binding(
                *activity,
                activity.processes@[i],
            ),
        forall|a: int, b: int| 0 <= a < b < r@.len() ==> r@[a] < r@[b],
{
    let ps = &activity.processes;
    let mut out: Vec<u32> = Vec::new();
    let mut i: usize = 0;
    while i < ps.len()
        invariant
            i <= ps.len(),
            ps == &activity.processes,
            forall|pid: u32| #[trigger] out@.to_set().contains(pid) <==> exists|x: int|
                0 <= x < i && ps@[x].pid == pid && live_binding(*activity, ps@[x]),
            forall|a: int, b: int| 0 <= a < b < out@.len() ==> out@[a] < out@[b],
        decreases ps.len() - i,
    {
        let live = holds_text(&activity.live, ps[i].native.as_str());
        let ghost before = out@;
        if live {
            insert_ascending(&mut out, ps[i].pid);
        }
        proof {
            assert forall|pid: u32| #[trigger] out@.to_set().contains(pid) <==> exists|x: int|
                0 <= x < i + 1 && ps@[x].pid == pid && live_binding(*activity, ps@[x]) by {
                if out@.to_set().contains(pid) {
                    if !before.to_set().contains(pid) {
                        assert(pid == ps@[i as int].pid && live);
                        assert(0 <= i < i + 1 && ps@[i as int].pid == pid);
                    }
                }
                if exists|x: int| 0 <= x < i + 1 && ps@[x].pid == pid && live_binding(*activity, ps@[x]) {
                    let x = choose|x: int| 0 <= x < i + 1 && ps@[x].pid == pid && live_binding(*activity, ps@[x]);
                    if x == i {
                        assert(live);
                    } else {
                        assert(before.to_set().contains(pid));
                    }
                }
            }
        }
        i = i + 1;
    }
    proof {
        assert forall|pid: u32| #[trigger] out@.contains(pid) == out@.to_set().contains(pid) by {}
    }
    out
}

/// The proof of which window owns which live process, as last taken for a provider.
#[derive(Debug)]
pub struct FocusProof {
    pub live_pids: Vec<u32>,
    pub taken_at_ms: u64,
}

/// Whether two lists hold the same values in the same order.
fn same_values(a: &Vec<u32>, b: &Vec<u32>) -> (r: bool)
    ensures
        r == (a@ == b@),
{
    if a.len() != b.len() {
        return false;
    }
    let mut i: usize = 0;
    while i < a.len()
        invariant
            a@.len() == b@.len(),
            i <= a@.len(),
            forall|j: int| 0 <= j < i ==> a@[j] == b@[j],
        decreases a@.len() - i,
    {
        if a[i] != b[i] {
            return false;
        }
        i = i + 1;
    }
    assert(a@ =~= b@);
    true
}

/// Whether the proof of window ownership must be taken again: only while a process is live,
/// and only when the live set changed or the last proof is `max_age_ms` old, never on every round.
pub fn wants_focus(live: &Vec<u32>, last: Option<&FocusProof>, now_ms: u64, max_age_ms: u64) -> (r: bool)
    ensures
        r == (live@.len() > 0 && (match last {
            None => true,
            Some(p) => p.live_pids@ != live@ || (if now_ms >= p.taken_at_ms {
                now_ms - p.taken_at_ms
            } else {
                0
            }) >= max_age_ms,
        })),
{
    if live.len() == 0 {
        return false;
    }
    match last {
        None => true,
        Some(p) => !same_values(&p.live_pids, live) || now_ms.saturating_sub(p.taken_at_ms) >= max_age_ms,
    }
}

/// Bytewise lexicographic order: the order in which `String` compares.
pub open spec fn byte_less(a: Seq<u8>, b: Seq<u8>) -> bool
    decreases a.len(),
{
    if a.len() == 0 {
        b.len() > 0
    } else if b.len() == 0 {
        false
    } else if a[0] != b[0] {
        a[0] < b[0]
    } else {
        byte_less(a.drop_first(), b.drop_first())
    }
}

/// The order of texts by their UTF-8 bytes.
pub open spec fn text_less(a: Seq<char>, b: Seq<char>) -> bool {
    byte_less(encode_utf8(a), encode_utf8(b))
}

/// No byte string precedes itself, and of two different ones exactly one precedes the other.
pub proof fn lemma_byte_less_total(a: Seq<u8>, b: Seq<u8>)
    ensures
        !byte_less(a, a),
        a != b ==> (byte_less(a, b) || byte_less(b, a)),
        !(byte_less(a, b) && byte_less(b, a)),
    decreases a.len(),
{
    if a.len() > 0 {
        lemma_byte_less_total(a.drop_first(), a.drop_first());
        if b.len() > 0 && a[0] == b[0] {
            lemma_byte_less_total(a.drop_first(), b.drop_first());
            if a != b {
                assert(a.drop_first() != b.drop_first()) by {
                    if a.drop_first() == b.drop_first() {
                        assert(a =~= seq![a[0]] + a.drop_first());
                        assert(b =~= seq![b[0]] + b.drop_first());
                    }
                }
            }
        }
    } else if b.len() == 0 {
        assert(a =~= b);
    }
}

/// The order of byte strings is transitive.
pub proof fn lemma_byte_less_transitive(a: Seq<u8>, b: Seq<u8>, c: Seq<u8>)
    requires
        byte_less(a, b),
        byte_less(b, c),
    ensures
        byte_less(a, c),
    decreases a.len(),
{
    if a.len() > 0 && b.len() > 0 && c.len() > 0 && a[0] == b[0] && b[0] == c[0] {
        lemma_byte_less_transitive(a.drop_first(), b.drop_first(), c.drop_first());
    }
}

/// Texts with the same bytes are the same text.
proof fn lemma_same_bytes_same_text(a: Seq<char>, b: Seq<char>)
    requires
        encode_utf8(a) == encode_utf8(b),
    ensures
        a == b,
{
    vstd::utf8::encode_utf8_decode_utf8(a);
    vstd::utf8::encode_utf8_decode_utf8(b);
}

/// Whether one byte string precedes another.
fn bytes_less(a: &[u8], b: &[u8]) -> (r: bool)
    ensures
        r == byte_less(a@, b@),
{
    let mut i: usize = 0;
    assert(a@.skip(0) =~= a@);
    assert(b@.skip(0) =~= b@);
    while i < a.len() && i < b.len()
        invariant
            i <= a@.len(),
            i <= b@.len(),
            byte_less(a@, b@) == byte_less(a@.skip(i as int), b@.skip(i as int)),
        decreases a@.len() - i,
    {
        if a[i] != b[i] {
            assert(a@.skip(i as int)[0] == a@[i as int]);
            assert(b@.skip(i as int)[0] == b@[i as int]);
            return a[i] < b[i];
        }
        assert(a@.skip(i as int).drop_first() =~= a@.skip(i + 1));
        assert(b@.skip(i as int).drop_first() =~= b@.skip(i + 1));
        i = i + 1;
    }
    i < b.len()
}

/// Whether a list of texts is strictly ascending.
pub open spec fn ascending(values: Seq<String>) -> bool {
    forall|a: int, b: int| 0 <= a < b < values.len() ==> text_less(values[a]@, values[b]@)
}

/// Whether a list of texts holds a text.
pub open spec fn lists(values: Seq<String>, t: Seq<char>) -> bool {
    exists|j: int| 0 <= j < values.len() && #[trigger] values[j]@ == t
}

/// Insert a text into a strictly ascending list unless it is already there.
fn insert_text_ascending(values: &mut Vec<String>, value: String)
    requires
        ascending(old(values)@),
    ensures
        ascending(final(values)@),
        forall|t: Seq<char>| #[trigger] lists(final(values)@, t) <==> (lists(old(values)@, t) || t == value@),
{
    let mut p: usize = 0;
    while p < values.len() && bytes_less(values[p].as_str().as_bytes(), value.as_str().as_bytes())
        invariant
            p <= values@.len(),
            values@ == old(values)@,
            forall|a: int| 0 <= a < p ==> text_less(values@[a]@, value@),
        decreases values@.len() - p,
    {
        p = p + 1;
    }
    if p < values.len() && str_eq(values[p].as_str(), value.as_str()) {
        proof {
            assert forall|t: Seq<char>| #[trigger] lists(values@, t) <==> (lists(old(values)@, t) || t == value@) by {
                if t == value@ {
                    assert(values@[p as int]@ == t);
                }
            }
        }
        return;
    }
    let ghost before = values@;
    proof {
        if p < before.len() {
            lemma_byte_less_total(encode_utf8(before[p as int]@), encode_utf8(value@));
            if encode_utf8(before[p as int]@) == encode_utf8(value@) {
                lemma_same_bytes_same_text(before[p as int]@, value@);
            }
            assert(text_less(value@, before[p as int]@));
        }
    }
    let ghost v = value@;
    values.insert(p, value);
    proof {
        assert(values@ == before.insert(p as int, values@[p as int]));
        assert forall|a: int, b: int| 0 <= a < b < values@.len() implies text_less(values@[a]@, values@[b]@) by {
            if b < p {
                assert(values@[a] == before[a]);
                assert(values@[b] == before[b]);
            } else if b == p {
                assert(values@[a] == before[a]);
            } else if a < p {
                assert(values@[a] == before[a]);
                assert(values@[b] == before[b - 1]);
                lemma_byte_less_transitive(encode_utf8(before[a]@), encode_utf8(v), encode_utf8(before[p as int]@));
                if b - 1 > p {
                    assert(ascending(before));
                    assert(text_less(before[p as int]@, before[b - 1]@));
                    lemma_byte_less_transitive(
                        encode_utf8(before[a]@),
                        encode_utf8(before[p as int]@),
                        encode_utf8(before[b - 1]@),
                    );
                }
            } else if a == p {
                assert(values@[b] == before[b - 1]);
                if b - 1 > p {
                    assert(ascending(before));
                    assert(text_less(before[p as int]@, before[b - 1]@));
                    lemma_byte_less_transitive(
                        encode_utf8(v),
                        encode_utf8(before[p as int]@),
                        encode_utf8(before[b - 1]@),
                    );
                }
            } else {
                assert(values@[a] == before[a - 1]);
                assert(values@[b] == before[b - 1]);
            }
        }
        assert forall|t: Seq<char>| #[trigger] lists(values@, t) <==> (lists(before, t) || t == v) by {
            if lists(values@, t) {
                let k = choose|k: int| 0 <= k < values@.len() && values@[k]@ == t;
                if k < p {
                    assert(before[k]@ == t);
                } else if k > p {
                    assert(before[k - 1]@ == t);
                }
            }
            if lists(before, t) {
                let k = choose|k: int| 0 <= k < before.len() && before[k]@ == t;
                if k < p {
                    assert(values@[k]@ == t);
                } else {
                    assert(values@[k + 1]@ == t);
                }
            }
            if t == v {
                assert(values@[p as int]@ == t);
            }
        }
    }
}

/// Whether a process's conversation can be attached to: it is live and the provider publishes
/// its own terminal route to that exact process.
pub open spec fn attachable(activity: NativeProcessActivity, b: NativeProcessBinding) -> bool {
    live_binding(activity, b) && b.official_terminal
}

/// Live conversations whose owning process publishes a terminal route of the provider's own,
/// each once, in ascending byte order. A console another terminal host owns is never joined.
pub fn attachable_native_sessions(activity: &NativeProcessActivity) -> (r: Vec<String>)
    ensures
        ascending(r@),
        forall|t: Seq<char>| #[trigger] lists(r@, t) <==> exists|i: int|
            0 <= i < activity.processes@.len() && attachable(*activity, activity.processes@[i])
                && activity.processes@[i].native@ == t,
{
    let ps = &activity.processes;
    let mut out: Vec<String> = Vec::new();
    let mut i: usize = 0;
    while i < ps.len()
        invariant
            i <= ps.len(),
            ps == &activity.processes,
            ascending(out@),
            forall|t: Seq<char>| #[trigger] lists(out@, t) <==> exists|x: int|
                0 <= x < i && attachable(*activity, ps@[x]) && ps@[x].native@ == t,
        decreases ps.len() - i,
    {
        let ghost before = out@;
        if ps[i].official_terminal && holds_text(&activity.live, ps[i].native.as_str()) {
            insert_text_ascending(&mut out, ps[i].native.clone());
        }
        proof {
            assert forall|t: Seq<char>| #[trigger] lists(out@, t) <==> exists|x: int|
                0 <= x < i + 1 && attachable(*activity, ps@[x]) && ps@[x].native@ == t by {
                if lists(out@, t) && !lists(before, t) {
                    assert(attachable(*activity, ps@[i as int]) && ps@[i as int].native@ == t);
                }
                if exists|x: int| 0 <= x < i + 1 && attachable(*activity, ps@[x]) && ps@[x].native@ == t {
                    let x = choose|x: int| 0 <= x < i + 1 && attachable(*activity, ps@[x]) && ps@[x].native@ == t;
                    if x < i {
                        assert(lists(before, t));
                    }
                }
            }
        }
        i = i + 1;
    }
    out
}

} // verus!
