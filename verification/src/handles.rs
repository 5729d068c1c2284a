//! Remote-object handles: each remote entity is an immutable identity record
//! holding its object path.  State is never cached on a handle; the library
//! only decodes what a fresh lookup returned.  This module also assembles the
//! ordered connection list of one refresh.

use vstd::prelude::*;
use crate::error::NetworkError;

verus! {

/// Handle of one active connection.
#[derive(Debug)]
pub struct NmConnection {
    pub path: String,
}

/// Handle of one network device.
#[derive(Debug)]
pub struct NmDevice {
    pub path: String,
}

/// Handle of one wireless access point.
#[derive(Debug)]
pub struct NmAccessPoint {
    pub path: String,
}

/// Handle of one IPv4 configuration object.
#[derive(Debug)]
pub struct NmIp4Config {
    pub path: String,
}

/// The object paths of a sequence of connection handles, in order.
pub open spec fn conn_paths(s: Seq<NmConnection>) -> Seq<Seq<char>> {
    s.map_values(|c: NmConnection| c.path@)
}

/// The predicate that keeps every path other than `p`.
pub open spec fn differs(p: Seq<char>) -> spec_fn(Seq<char>) -> bool {
    |q: Seq<char>| q != p
}

/// Turns the manager's primary-connection reply into a handle.  The bus root
/// sentinel "/" means that no primary connection exists and always yields the
/// semantic-absence error, never a usable handle.
pub fn primary_connection_from_path(path: String) -> (r: Result<NmConnection, NetworkError>)
    ensures
        path@ == "/"@ ==> (r matches Err(e) && e matches NetworkError::NoPrimaryConnection),
        path@ != "/"@ ==> (r matches Ok(c) && c.path@ == path@),
{
    proof {
        reveal_strlit("/");
    }
    let is_root = path.as_str().unicode_len() == 1 && path.as_str().get_char(0) == '/';
    proof {
        assert(is_root <==> path@ =~= "/"@);
    }
    if is_root {
        Err(NetworkError::NoPrimaryConnection)
    } else {
        Ok(NmConnection { path })
    }
}

/// Appending one handle appends its path to the path sequence.
proof fn lemma_conn_paths_push(s: Seq<NmConnection>, c: NmConnection)
    ensures
        conn_paths(s.push(c)) =~= conn_paths(s).push(c.path@),
{
}

/// One step of filtering the paths of a prefix of `s`.
proof fn lemma_filter_take_step(s: Seq<NmConnection>, i: int, pred: spec_fn(Seq<char>) -> bool)
    requires
        0 <= i < s.len(),
    ensures
        pred(s[i].path@) ==> conn_paths(s.take(i + 1)).filter(pred) =~= conn_paths(
            s.take(i),
        ).filter(pred).push(s[i].path@),
        !pred(s[i].path@) ==> conn_paths(s.take(i + 1)).filter(pred) =~= conn_paths(
            s.take(i),
        ).filter(pred),
{
    let x = s[i].path@;
    assert(conn_paths(s.take(i + 1)) =~= conn_paths(s.take(i)) + seq![x]);
    Seq::<Seq<char>>::filter_distributes_over_add(conn_paths(s.take(i)), seq![x], pred);
    reveal_with_fuel(Seq::<_>::filter, 2);
    assert(seq![x].drop_last() =~= Seq::<Seq<char>>::empty());
    if pred(x) {
        assert(seq![x].filter(pred) =~= seq![x]);
        assert(conn_paths(s.take(i)).filter(pred) + seq![x] =~= conn_paths(s.take(i)).filter(
            pred,
        ).push(x));
    } else {
        assert(seq![x].filter(pred) =~= Seq::<Seq<char>>::empty());
        assert(conn_paths(s.take(i)).filter(pred) + Seq::<Seq<char>>::empty() =~= conn_paths(
            s.take(i),
        ).filter(pred));
    }
}

/// Turns the manager's active-connections reply into handles, keeping the
/// order of the reply.
pub fn connections_from_paths(paths: &Vec<String>) -> (r: Vec<NmConnection>)
    ensures
        conn_paths(r@) =~= paths@.map_values(|p: String| p@),
{
    let mut r: Vec<NmConnection> = Vec::new();
    let mut i: usize = 0;
    while i < paths.len()
        invariant
            i <= paths@.len(),
            r@.len() == i,
            forall|j: int| 0 <= j < i as int ==> #[trigger] r@[j].path@ == paths@[j]@,
        decreases paths@.len() - i,
    {
        let s = String::from_str(paths[i].as_str());
        r.push(NmConnection { path: s });
        i += 1;
    }
    proof {
        assert(conn_paths(r@) =~= paths@.map_values(|p: String| p@));
    }
    r
}

/// The ordered connection list of one refresh: with `primary_only` the
/// primary connection alone (or nothing); otherwise the primary connection
/// first, followed by the active connections whose path differs from it, in
/// their original relative order.  A failed lookup arrives here as `None`
/// (primary) or as an empty list (active connections).
pub fn merge_connections(primary: Option<NmConnection>, active: Vec<NmConnection>, primary_only:
    bool) -> (r: Vec<NmConnection>)
    ensures
        primary_only ==> (match primary {
            Some(p) => conn_paths(r@) =~= seq![p.path@],
            None => conn_paths(r@) =~= Seq::<Seq<char>>::empty(),
        }),
        !primary_only ==> (match primary {
            Some(p) => conn_paths(r@) =~= seq![p.path@] + conn_paths(active@).filter(
                differs(p.path@),
            ),
            None => conn_paths(r@) =~= conn_paths(active@),
        }),
{
    match primary {
        Some(p) => {
            let ghost pv = p.path@;
            let p_path = String::from_str(p.path.as_str());
            let mut r: Vec<NmConnection> = Vec::new();
            r.push(p);
            if primary_only {
                return r;
            }
            let mut i: usize = 0;
            while i < active.len()
                invariant
                    i <= active@.len(),
                    p_path@ == pv,
                    conn_paths(r@) =~= seq![pv] + conn_paths(active@.take(i as int)).filter(
                        differs(pv),
                    ),
                decreases active@.len() - i,
            {
                let ghost r0 = r@;
                let ghost x = active@[i as int].path@;
                let cand = &active[i];
                if !cand.path.eq(&p_path) {
                    let s = String::from_str(cand.path.as_str());
                    r.push(NmConnection { path: s });
                    proof {
                        lemma_filter_take_step(active@, i as int, differs(pv));
                        lemma_conn_paths_push(r0, r@.last());
                        assert(r0.push(r@.last()) =~= r@);
                        Seq::<Seq<char>>::push_distributes_over_add(
                            seq![pv],
                            conn_paths(active@.take(i as int)).filter(differs(pv)),
                            x,
                        );
                        assert(conn_paths(r@) =~= seq![pv] + conn_paths(
                            active@.take(i + 1),
                        ).filter(differs(pv)));
                    }
                } else {
                    proof {
                        lemma_filter_take_step(active@, i as int, differs(pv));
                    }
                }
                i += 1;
            }
            proof {
                assert(active@.take(active@.len() as int) =~= active@);
            }
            r
        },
        None => {
            if primary_only {
                Vec::new()
            } else {
                active
            }
        },
    }
}

/// With `primary_only` disabled and a resolved primary connection, the merged
/// list holds the primary connection's path exactly once, in first position,
/// even when it also occurs in the raw active-connections list.
pub proof fn lemma_primary_first_and_unique(p: NmConnection, active: Seq<NmConnection>)
    ensures
        ({
            let merged = seq![p.path@] + conn_paths(active).filter(differs(p.path@));
            &&& merged.len() >= 1
            &&& merged[0] == p.path@
            &&& forall|i: int| 1 <= i < merged.len() ==> merged[i] != p.path@
        }),
{
    let filtered = conn_paths(active).filter(differs(p.path@));
    let merged = seq![p.path@] + filtered;
    assert forall|i: int| 1 <= i < merged.len() implies merged[i] != p.path@ by {
        conn_paths(active).lemma_filter_pred(differs(p.path@), i - 1);
        assert(merged[i] == filtered[i - 1]);
    }
}

} // verus!
