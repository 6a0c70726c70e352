//! The set of keyboard devices the input daemon reads: a snapshot sorted
//! by device path, so that scans finding the same devices in another order
//! give the same snapshot.
use vstd::prelude::*;
use vstd::relations::{sorted_by, total_ordering};

use crate::text::{chars_of, push_str, string_from_chars};

verus! {

broadcast use vstd::string::group_string_axioms;

/// Lexicographic order of character sequences by code point; a prefix
/// comes first.
pub open spec fn lex_le(a: Seq<char>, b: Seq<char>) -> bool
    decreases a.len(),
{
    if a.len() == 0 {
        true
    } else if b.len() == 0 {
        false
    } else if (a[0] as u32) < (b[0] as u32) {
        true
    } else if (a[0] as u32) > (b[0] as u32) {
        false
    } else {
        lex_le(a.drop_first(), b.drop_first())
    }
}

proof fn lemma_same_code_point(c: char, d: char)
    requires
        c as u32 == d as u32,
    ensures
        c == d,
{
    vstd::utf8::char_u32_cast(c, c as u32);
    vstd::utf8::char_u32_cast(d, d as u32);
}

proof fn lemma_lex_refl(a: Seq<char>)
    ensures
        lex_le(a, a),
    decreases a.len(),
{
    if a.len() > 0 {
        lemma_lex_refl(a.drop_first());
    }
}

proof fn lemma_lex_antisym(a: Seq<char>, b: Seq<char>)
    requires
        lex_le(a, b),
        lex_le(b, a),
    ensures
        a == b,
    decreases a.len(),
{
    if a.len() == 0 {
        assert(b.len() == 0);
        assert(a =~= b);
    } else {
        assert(b.len() > 0);
        assert(a[0] as u32 == b[0] as u32);
        lemma_same_code_point(a[0], b[0]);
        lemma_lex_antisym(a.drop_first(), b.drop_first());
        assert(a =~= b) by {
            assert forall|i: int| 0 <= i < a.len() implies a[i] == b[i] by {
                if i > 0 {
                    assert(a[i] == a.drop_first()[i - 1]);
                    assert(b[i] == b.drop_first()[i - 1]);
                }
            }
        }
    }
}

proof fn lemma_lex_trans(a: Seq<char>, b: Seq<char>, c: Seq<char>)
    requires
        lex_le(a, b),
        lex_le(b, c),
    ensures
        lex_le(a, c),
    decreases a.len(),
{
    if a.len() > 0 && b.len() > 0 && c.len() > 0 {
        if (a[0] as u32) == (b[0] as u32) && (b[0] as u32) == (c[0] as u32) {
            lemma_lex_trans(a.drop_first(), b.drop_first(), c.drop_first());
        }
    }
}

proof fn lemma_lex_total(a: Seq<char>, b: Seq<char>)
    ensures
        lex_le(a, b) || lex_le(b, a),
    decreases a.len(),
{
    if a.len() > 0 && b.len() > 0 && (a[0] as u32) == (b[0] as u32) {
        lemma_lex_total(a.drop_first(), b.drop_first());
    }
}

/// Strictly before in lexicographic order.
pub open spec fn lex_lt(a: Seq<char>, b: Seq<char>) -> bool {
    lex_le(a, b) && a != b
}

/// Whether `a` comes strictly before `b` in lexicographic order.
pub fn chars_less(a: &[char], b: &[char]) -> (r: bool)
    ensures
        r == lex_lt(a@, b@),
{
    let mut i: usize = 0;
    while i < a.len() && i < b.len()
        invariant
            i <= a@.len(),
            i <= b@.len(),
            a@.subrange(0, i as int) == b@.subrange(0, i as int),
        decreases a@.len() - i,
    {
        let x: u32 = a[i] as u32;
        let y: u32 = b[i] as u32;
        if x < y {
            proof {
                lemma_lex_prefix_step(a@, b@, i as int);
            }
            return true;
        }
        if x > y {
            proof {
                lemma_lex_prefix_step(a@, b@, i as int);
            }
            return false;
        }
        proof {
            lemma_same_code_point(a@[i as int], b@[i as int]);
        }
        assert(a@.subrange(0, i + 1) =~= a@.subrange(0, i as int).push(a@[i as int]));
        assert(b@.subrange(0, i + 1) =~= b@.subrange(0, i as int).push(b@[i as int]));
        i = i + 1;
    }
    proof {
        lemma_lex_common_prefix(a@, b@, i as int);
    }
    i == a.len() && i < b.len()
}

proof fn lemma_lex_prefix_step(a: Seq<char>, b: Seq<char>, i: int)
    requires
        0 <= i < a.len(),
        i < b.len(),
        a.subrange(0, i) == b.subrange(0, i),
        a[i] as u32 != b[i] as u32,
    ensures
        lex_le(a, b) == ((a[i] as u32) < (b[i] as u32)),
        a != b,
    decreases i,
{
    if i > 0 {
        assert(a[0] == a.subrange(0, i)[0]);
        assert(b[0] == b.subrange(0, i)[0]);
        assert(a.drop_first().subrange(0, i - 1) =~= a.subrange(0, i).drop_first());
        assert(b.drop_first().subrange(0, i - 1) =~= b.subrange(0, i).drop_first());
        lemma_lex_prefix_step(a.drop_first(), b.drop_first(), i - 1);
    }
    assert(a[i] != b[i]);
}

proof fn lemma_lex_common_prefix(a: Seq<char>, b: Seq<char>, i: int)
    requires
        0 <= i <= a.len(),
        i <= b.len(),
        i == a.len() || i == b.len(),
        a.subrange(0, i) == b.subrange(0, i),
    ensures
        lex_lt(a, b) == (i == a.len() && i < b.len()),
    decreases i,
{
    if i > 0 {
        assert(a[0] == a.subrange(0, i)[0]);
        assert(b[0] == b.subrange(0, i)[0]);
        assert(a.drop_first().subrange(0, i - 1) =~= a.subrange(0, i).drop_first());
        assert(b.drop_first().subrange(0, i - 1) =~= b.subrange(0, i).drop_first());
        lemma_lex_common_prefix(a.drop_first(), b.drop_first(), i - 1);
        if a == b {
            assert(a.drop_first() == b.drop_first());
        }
        if a.drop_first() == b.drop_first() {
            assert(a =~= b) by {
                assert forall|k: int| 0 <= k < a.len() implies a[k] == b[k] by {
                    if k > 0 {
                        assert(a[k] == a.drop_first()[k - 1]);
                        assert(b[k] == b.drop_first()[k - 1]);
                    }
                }
            }
        }
    } else {
        if a.len() == 0 && b.len() == 0 {
            assert(a =~= b);
        }
    }
}

/// An input device the daemon opened: its path and name.
#[derive(Debug, Clone, PartialEq, Eq)]
pub struct DeviceIdentity {
    pub path: String,
    pub name: String,
}

/// The devices as (path, name) pairs.
pub open spec fn identities(v: Seq<DeviceIdentity>) -> Seq<(Seq<char>, Seq<char>)> {
    v.map_values(|d: DeviceIdentity| (d.path@, d.name@))
}

/// Whether the pairs are in non-decreasing path order.
pub open spec fn sorted_by_path(v: Seq<(Seq<char>, Seq<char>)>) -> bool {
    forall|i: int, j: int| 0 <= i < j < v.len() ==> lex_le(#[trigger] v[i].0, #[trigger] v[j].0)
}

/// Whether `out` is `input` sorted by path: the same devices, in path
/// order.
pub open spec fn snapshot_of(
    input: Seq<(Seq<char>, Seq<char>)>,
    out: Seq<(Seq<char>, Seq<char>)>,
) -> bool {
    sorted_by_path(out) && out.to_multiset() == input.to_multiset()
}

/// The devices of one scan, sorted by path.
#[derive(Debug, Clone, PartialEq, Eq)]
pub struct DeviceSetSnapshot {
    pub devices: Vec<DeviceIdentity>,
}

fn copy_identity(d: &DeviceIdentity) -> (r: DeviceIdentity)
    ensures
        r.path@ == d.path@,
        r.name@ == d.name@,
{
    DeviceIdentity { path: d.path.clone(), name: d.name.clone() }
}

impl DeviceSetSnapshot {
    /// The snapshot of a scan: its devices sorted by path; devices with the
    /// same path keep their scan order.
    pub fn from_devices(devices: &Vec<DeviceIdentity>) -> (s: Self)
        ensures
            snapshot_of(identities(devices@), identities(s.devices@)),
    {
        broadcast use vstd::seq_lib::group_to_multiset_ensures;

        let mut out: Vec<DeviceIdentity> = Vec::new();
        let mut i: usize = 0;
        while i < devices.len()
            invariant
                i <= devices@.len(),
                sorted_by_path(identities(out@)),
                identities(out@).to_multiset() == identities(devices@.subrange(0, i as int)).to_multiset(),
            decreases devices@.len() - i,
        {
            let d = &devices[i];
            let dp = chars_of(d.path.as_str());
            let mut pos: usize = 0;
            while pos < out.len() && !chars_less(dp.as_slice(), chars_of(out[pos].path.as_str()).as_slice())
                invariant
                    pos <= out@.len(),
                    dp@ == d.path@,
                    forall|k: int| 0 <= k < pos ==> lex_le(#[trigger] out@[k].path@, d.path@),
                decreases out@.len() - pos,
            {
                proof {
                    lemma_lex_total(out@[pos as int].path@, d.path@);
                }
                pos = pos + 1;
            }
            let ghost before = out@;
            let ghost ib = identities(before);
            let ghost x = (d.path@, d.name@);
            proof {
                if pos < before.len() {
                    assert(lex_lt(d.path@, before[pos as int].path@));
                }
            }
            out.insert(pos, copy_identity(d));
            assert(identities(out@) =~= ib.insert(pos as int, x));
            assert(devices@.subrange(0, i + 1) =~= devices@.subrange(0, i as int).push(devices@[i as int]));
            assert(identities(devices@.subrange(0, i + 1)) =~= identities(devices@.subrange(0, i as int)).push(x));
            proof {
                vstd::seq_lib::to_multiset_insert(ib, pos as int, x);
                vstd::seq_lib::to_multiset_build(identities(devices@.subrange(0, i as int)), x);
            }
            assert(sorted_by_path(identities(out@))) by {
                let io = identities(out@);
                assert forall|a: int, b: int| 0 <= a < b < io.len() implies lex_le(#[trigger] io[a].0, #[trigger] io[b].0) by {
                    if b < pos {
                        assert(io[a] == ib[a] && io[b] == ib[b]);
                    } else if b == pos {
                        assert(io[a] == ib[a]);
                        assert(io[b] == x);
                        assert(lex_le(before[a].path@, d.path@));
                    } else if a < pos {
                        assert(io[a] == ib[a] && io[b] == ib[b - 1]);
                        if b - 1 < pos {
                        } else {
                            assert(lex_le(ib[a].0, ib[pos as int].0));
                        }
                    } else if a == pos {
                        assert(io[a] == x);
                        assert(io[b] == ib[b - 1]);
                        assert(lex_lt(d.path@, before[pos as int].path@));
                        if b - 1 > pos {
                            assert(lex_le(ib[pos as int].0, ib[b - 1].0));
                            lemma_lex_trans(d.path@, ib[pos as int].0, ib[b - 1].0);
                        }
                    } else {
                        assert(io[a] == ib[a - 1] && io[b] == ib[b - 1]);
                    }
                }
            }
            i = i + 1;
        }
        assert(devices@.subrange(0, i as int) =~= devices@);
        DeviceSetSnapshot { devices: out }
    }

    /// The devices for logs: `name (path)` joined with `, `, or `none`.
    pub fn display_label(&self) -> (s: String)
        ensures
            self.devices@.len() == 0 ==> s@ == "none"@,
            self.devices@.len() > 0 ==> s@ == device_list_text(self.devices@),
    {
        if self.devices.len() == 0 {
            return string_from_chars(chars_of("none").as_slice());
        }
        let mut out: Vec<char> = Vec::new();
        let mut i: usize = 0;
        while i < self.devices.len()
            invariant
                i <= self.devices@.len(),
                out@ == device_list_text(self.devices@.subrange(0, i as int)),
            decreases self.devices@.len() - i,
        {
            assert(self.devices@.subrange(0, i + 1).drop_last() =~= self.devices@.subrange(0, i as int));
            if i > 0 {
                push_str(&mut out, ", ");
            }
            push_str(&mut out, self.devices[i].name.as_str());
            push_str(&mut out, " (");
            push_str(&mut out, self.devices[i].path.as_str());
            push_str(&mut out, ")");
            i = i + 1;
        }
        assert(self.devices@.subrange(0, i as int) =~= self.devices@);
        string_from_chars(out.as_slice())
    }
}

/// `name (path)` of each device, joined with `, `.
pub open spec fn device_list_text(v: Seq<DeviceIdentity>) -> Seq<char>
    decreases v.len(),
{
    if v.len() == 0 {
        Seq::empty()
    } else {
        let prefix = device_list_text(v.drop_last());
        let d = v.last();
        (if v.len() > 1 {
            prefix + ", "@
        } else {
            prefix
        }) + d.name@ + " ("@ + d.path@ + ")"@
    }
}

/// Path order, with the name deciding between equal paths.
pub open spec fn identity_le() -> spec_fn((Seq<char>, Seq<char>), (Seq<char>, Seq<char>)) -> bool {
    |x: (Seq<char>, Seq<char>), y: (Seq<char>, Seq<char>)| lex_lt(x.0, y.0) || (x.0 == y.0 && lex_le(x.1, y.1))
}

proof fn lemma_identity_order_total()
    ensures
        total_ordering(identity_le()),
{
    let r = identity_le();
    assert forall|x: (Seq<char>, Seq<char>)| #[trigger] r(x, x) by {
        lemma_lex_refl(x.1);
    }
    assert forall|x: (Seq<char>, Seq<char>), y: (Seq<char>, Seq<char>)| #[trigger] r(x, y) && #[trigger] r(y, x) implies x == y by {
        if x.0 != y.0 {
            lemma_lex_antisym(x.0, y.0);
        } else {
            lemma_lex_antisym(x.1, y.1);
        }
    }
    assert forall|x: (Seq<char>, Seq<char>), y: (Seq<char>, Seq<char>), z: (Seq<char>, Seq<char>)| #[trigger] r(x, y) && #[trigger] r(y, z) implies r(x, z) by {
        if x.0 != y.0 && y.0 != z.0 {
            lemma_lex_trans(x.0, y.0, z.0);
            if x.0 == z.0 {
                lemma_lex_antisym(x.0, y.0);
            }
        } else if x.0 == y.0 && y.0 == z.0 {
            lemma_lex_trans(x.1, y.1, z.1);
        }
    }
    assert forall|x: (Seq<char>, Seq<char>), y: (Seq<char>, Seq<char>)| #[trigger] r(x, y) || #[trigger] r(y, x) by {
        lemma_lex_total(x.0, y.0);
        lemma_lex_total(x.1, y.1);
    }
}

/// Whether no two devices share a path.
pub open spec fn distinct_paths(v: Seq<(Seq<char>, Seq<char>)>) -> bool {
    forall|i: int, j: int| 0 <= i < j < v.len() ==> #[trigger] v[i].0 != #[trigger] v[j].0
}

proof fn lemma_snapshot_keeps_distinct_paths(
    input: Seq<(Seq<char>, Seq<char>)>,
    out: Seq<(Seq<char>, Seq<char>)>,
)
    requires
        distinct_paths(input),
        out.to_multiset() == input.to_multiset(),
    ensures
        distinct_paths(out),
{
    broadcast use vstd::seq_lib::group_to_multiset_ensures;
    broadcast use vstd::multiset::group_multiset_axioms;

    assert(input.no_duplicates()) by {
        assert forall|i: int, j: int| 0 <= i < input.len() && 0 <= j < input.len() && i != j implies input[i] != input[j] by {
            if i < j {
                assert(input[i].0 != input[j].0);
            } else {
                assert(input[j].0 != input[i].0);
            }
        }
    }
    input.lemma_multiset_has_no_duplicates();
    assert forall|x: (Seq<char>, Seq<char>)| out.to_multiset().count(x) <= 1 by {
        if input.to_multiset().count(x) > 0 {
            assert(input.contains(x));
        }
    }
    out.lemma_multiset_has_no_duplicates_conv();
    assert forall|i: int, j: int| 0 <= i < j < out.len() implies #[trigger] out[i].0 != #[trigger] out[j].0 by {
        if out[i].0 == out[j].0 {
            assert(out[i] != out[j]);
            vstd::seq_lib::to_multiset_contains(out, out[i]);
            vstd::seq_lib::to_multiset_contains(out, out[j]);
            vstd::seq_lib::to_multiset_contains(input, out[i]);
            vstd::seq_lib::to_multiset_contains(input, out[j]);
            assert(out.contains(out[i]));
            assert(out.contains(out[j]));
            assert(input.contains(out[i]));
            assert(input.contains(out[j]));
            let p = choose|p: int| 0 <= p < input.len() && input[p] == out[i];
            let q = choose|q: int| 0 <= q < input.len() && input[q] == out[j];
            assert(p != q);
            if p < q {
                assert(input[p].0 != input[q].0);
            } else {
                assert(input[q].0 != input[p].0);
            }
        }
    }
}

/// Scans that find the same devices, each path once, in any order give
/// the same snapshot.
pub proof fn lemma_device_snapshot_order_independent(
    scan1: Seq<(Seq<char>, Seq<char>)>,
    scan2: Seq<(Seq<char>, Seq<char>)>,
    snapshot1: Seq<(Seq<char>, Seq<char>)>,
    snapshot2: Seq<(Seq<char>, Seq<char>)>,
)
    requires
        distinct_paths(scan1),
        scan1.to_multiset() == scan2.to_multiset(),
        snapshot_of(scan1, snapshot1),
        snapshot_of(scan2, snapshot2),
    ensures
        snapshot1 == snapshot2,
{
    lemma_snapshot_keeps_distinct_paths(scan1, snapshot1);
    lemma_snapshot_keeps_distinct_paths(scan1, snapshot2);
    lemma_identity_order_total();
    let r = identity_le();
    assert(sorted_by(snapshot1, r)) by {
        assert forall|i: int, j: int| 0 <= i < j < snapshot1.len() implies #[trigger] r(snapshot1[i], snapshot1[j]) by {
            assert(lex_le(snapshot1[i].0, snapshot1[j].0));
            assert(snapshot1[i].0 != snapshot1[j].0);
        }
    }
    assert(sorted_by(snapshot2, r)) by {
        assert forall|i: int, j: int| 0 <= i < j < snapshot2.len() implies #[trigger] r(snapshot2[i], snapshot2[j]) by {
            assert(lex_le(snapshot2[i].0, snapshot2[j].0));
            assert(snapshot2[i].0 != snapshot2[j].0);
        }
    }
    vstd::seq_lib::lemma_sorted_unique(snapshot1, snapshot2, r);
}

} // verus!
