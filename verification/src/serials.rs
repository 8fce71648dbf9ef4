//! Goods tracked by serial number (the local store): receiving and issuing units one serial
//! number at a time.

use vstd::prelude::*;

use crate::error::AppError;
use crate::text::str_eq;

verus! {

/// Whether the serial number at position `k` of `sns` already occurred before it.
pub open spec fn sn_seen_before(sns: Seq<String>, k: int) -> bool {
    exists|j: int| 0 <= j < k && #[trigger] sns[j]@ == sns[k]@
}

fn seen_before(sns: &Vec<String>, k: usize) -> (b: bool)
    requires
        k < sns@.len(),
    ensures
        b == sn_seen_before(sns@, k as int),
{
    let mut j: usize = 0;
    while j < k
        invariant
            j <= k < sns@.len(),
            forall|m: int| 0 <= m < j ==> #[trigger] sns@[m]@ != sns@[k as int]@,
        decreases k - j,
    {
        if str_eq(sns[j].as_str(), sns[k].as_str()) {
            return true;
        }
        j = j + 1;
    }
    false
}

/// The message refusing to receive serial number `sn`, which is in stock already.
pub open spec fn sn_in_stock_message(sn: Seq<char>) -> Seq<char> {
    "序列号「"@ + sn + "」已在库，不能重复入库"@
}

/// The first of the first `n` serial numbers that is in stock already.
pub open spec fn first_in_stock(in_stock: Seq<bool>, n: nat) -> Option<int>
    decreases n,
{
    if n == 0 {
        None
    } else {
        match first_in_stock(in_stock, (n - 1) as nat) {
            Some(k) => Some(k),
            None => if in_stock[n - 1] {
                Some(n - 1)
            } else {
                None
            },
        }
    }
}

proof fn lemma_first_in_stock(in_stock: Seq<bool>, n: nat, m: nat)
    requires
        n <= m,
        first_in_stock(in_stock, n) is Some,
    ensures
        first_in_stock(in_stock, m) == first_in_stock(in_stock, n),
    decreases m - n,
{
    if n < m {
        lemma_first_in_stock(in_stock, n, (m - 1) as nat);
    }
}

/// Receives the units with serial numbers `sns`, of which those marked in `in_stock` are in
/// stock already (and were not returned): none may be. Returns how much the product's stock
/// rises: one per serial number given.
pub fn plan_serial_inbound(sns: &Vec<String>, in_stock: &Vec<bool>) -> (r: Result<i32, AppError>)
    requires
        in_stock@.len() == sns@.len(),
        sns@.len() <= i32::MAX,
    ensures
        sns@.len() == 0 ==> (r matches Err(e) && e.status == 400 && e.code == 4000 && e.message@ == "序列号列表不能为空"@),
        sns@.len() > 0 ==> match first_in_stock(in_stock@, sns@.len()) {
            Some(k) => r matches Err(e) && e.status == 409 && e.code == 4093 && e.message@ == sn_in_stock_message(
                sns@[k]@,
            ),
            None => r == Ok::<i32, AppError>(sns@.len() as i32),
        },
{
    if sns.len() == 0 {
        return Err(AppError::bad_request(String::from_str("序列号列表不能为空")));
    }
    let mut k: usize = 0;
    while k < sns.len()
        invariant
            k <= sns@.len(),
            in_stock@.len() == sns@.len(),
            first_in_stock(in_stock@, k as nat) is None,
        decreases sns@.len() - k,
    {
        if in_stock[k] {
            proof {
                lemma_first_in_stock(in_stock@, (k + 1) as nat, sns@.len());
            }
            let mut m = String::from_str("序列号「");
            m.append(sns[k].as_str());
            m.append("」已在库，不能重复入库");
            return Err(AppError::conflict(4093, m));
        }
        k = k + 1;
    }
    Ok(sns.len() as i32)
}

/// A serial number as the store holds it before an outbound.
#[derive(Debug, Clone)]
pub struct SerialState {
    pub status: String,
    pub product_id: i64,
}

/// The status serial number `k` has when its turn comes: `SOLD` when it came up earlier in
/// the same outbound, else the stored one.
pub open spec fn sn_status_at(sns: Seq<String>, stored: Seq<Option<SerialState>>, k: int) -> Seq<char> {
    if sn_seen_before(sns, k) {
        "SOLD"@
    } else {
        stored[k]->0.status@
    }
}

/// Why serial number `k` cannot be issued, if it cannot.
pub open spec fn sn_outbound_error(sns: Seq<String>, stored: Seq<Option<SerialState>>, k: int) -> Option<(int, Seq<char>)> {
    if stored[k] is None {
        Some((404, "序列号「"@ + sns[k]@ + "」不存在"@))
    } else if sn_status_at(sns, stored, k) != "IN_STOCK"@ {
        Some((4094, "序列号「"@ + sns[k]@ + "」状态为 "@ + sn_status_at(sns, stored, k) + "，不能出库"@))
    } else {
        None
    }
}

/// The first of the first `n` serial numbers that cannot be issued.
pub open spec fn first_outbound_error(sns: Seq<String>, stored: Seq<Option<SerialState>>, n: nat) -> Option<int>
    decreases n,
{
    if n == 0 {
        None
    } else {
        match first_outbound_error(sns, stored, (n - 1) as nat) {
            Some(k) => Some(k),
            None => if sn_outbound_error(sns, stored, n - 1) is Some {
                Some(n - 1)
            } else {
                None
            },
        }
    }
}

proof fn lemma_first_outbound_error(sns: Seq<String>, stored: Seq<Option<SerialState>>, n: nat, m: nat)
    requires
        n <= m,
        first_outbound_error(sns, stored, n) is Some,
    ensures
        first_outbound_error(sns, stored, m) == first_outbound_error(sns, stored, n),
    decreases m - n,
{
    if n < m {
        lemma_first_outbound_error(sns, stored, n, (m - 1) as nat);
    }
}

/// Position of product `pid` in the per-product counts `deltas`, or -1.
pub open spec fn delta_index(deltas: Seq<(i64, i32)>, pid: i64) -> int
    decreases deltas.len(),
{
    if deltas.len() == 0 {
        -1
    } else if deltas.last().0 == pid {
        deltas.len() - 1
    } else {
        delta_index(deltas.drop_last(), pid)
    }
}

/// How many units of each product the first `n` serial numbers take out, products in the
/// order they first come up.
pub open spec fn serial_deltas(stored: Seq<Option<SerialState>>, n: nat) -> Seq<(i64, i32)>
    decreases n,
{
    if n == 0 {
        Seq::empty()
    } else {
        let d = serial_deltas(stored, (n - 1) as nat);
        let pid = stored[n - 1]->0.product_id;
        let j = delta_index(d, pid);
        if j < 0 {
            d.push((pid, 1i32))
        } else {
            d.update(j, (pid, (d[j].1 + 1) as i32))
        }
    }
}

proof fn lemma_delta_index(deltas: Seq<(i64, i32)>, pid: i64)
    ensures
        delta_index(deltas, pid) == -1 || (0 <= delta_index(deltas, pid) < deltas.len() && deltas[delta_index(
            deltas,
            pid,
        )].0 == pid),
    decreases deltas.len(),
{
    if deltas.len() > 0 && deltas.last().0 != pid {
        lemma_delta_index(deltas.drop_last(), pid);
    }
}

proof fn lemma_serial_deltas_bounds(stored: Seq<Option<SerialState>>, n: nat)
    requires
        n <= i32::MAX,
    ensures
        serial_deltas(stored, n).len() <= n,
        forall|j: int| 0 <= j < serial_deltas(stored, n).len() ==> 1 <= #[trigger] serial_deltas(stored, n)[j].1 <= n,
    decreases n,
{
    if n > 0 {
        lemma_serial_deltas_bounds(stored, (n - 1) as nat);
        let d = serial_deltas(stored, (n - 1) as nat);
        let pid = stored[n - 1]->0.product_id;
        lemma_delta_index(d, pid);
        let j = delta_index(d, pid);
        let r = serial_deltas(stored, n);
        assert forall|i: int| 0 <= i < r.len() implies 1 <= #[trigger] r[i].1 <= n by {
            if j < 0 {
                if i < d.len() {
                    assert(r[i] == d[i]);
                }
            } else if i != j {
                assert(r[i] == d[i]);
            } else {
                assert(1 <= d[j].1 <= n - 1);
                assert(r[j].1 == d[j].1 + 1);
            }
        }
    }
}

fn find_delta(deltas: &Vec<(i64, i32)>, pid: i64) -> (r: Option<usize>)
    ensures
        match r {
            Some(j) => j < deltas@.len() && delta_index(deltas@, pid) == j,
            None => delta_index(deltas@, pid) == -1,
        },
{
    let mut j: usize = deltas.len();
    proof {
        assert(deltas@.subrange(0, j as int) =~= deltas@);
    }
    while j > 0
        invariant
            j <= deltas@.len(),
            delta_index(deltas@, pid) == delta_index(deltas@.subrange(0, j as int), pid),
        decreases j,
    {
        if deltas[j - 1].0 == pid {
            return Some(j - 1);
        }
        proof {
            assert(deltas@.subrange(0, j as int).drop_last() =~= deltas@.subrange(0, j - 1));
        }
        j = j - 1;
    }
    None
}

/// Issues the units with serial numbers `sns`, where `stored[k]` is serial number `k` as
/// the store held it before (`None` when it does not exist). Each must exist and be in stock
/// when its turn comes; a serial number given twice is sold by its first turn. Returns how
/// many units of each product go out, products in the order they first come up.
pub fn plan_serial_outbound(sns: &Vec<String>, stored: &Vec<Option<SerialState>>) -> (r: Result<Vec<(i64, i32)>, AppError>)
    requires
        stored@.len() == sns@.len(),
        sns@.len() <= i32::MAX,
    ensures
        sns@.len() == 0 ==> (r matches Err(e) && e.status == 400 && e.code == 4000 && e.message@ == "序列号列表不能为空"@),
        sns@.len() > 0 ==> match first_outbound_error(sns@, stored@, sns@.len()) {
            Some(k) => match sn_outbound_error(sns@, stored@, k) {
                Some((code, msg)) => r matches Err(e) && e.message@ == msg && (if code == 404 {
                    e.status == 404 && e.code == 4040
                } else {
                    e.status == 409 && e.code == 4094
                }),
                None => false,
            },
            None => r matches Ok(d) && d@ == serial_deltas(stored@, sns@.len()),
        },
{
    if sns.len() == 0 {
        return Err(AppError::bad_request(String::from_str("序列号列表不能为空")));
    }
    let mut deltas: Vec<(i64, i32)> = Vec::new();
    let mut k: usize = 0;
    while k < sns.len()
        invariant
            k <= sns@.len(),
            stored@.len() == sns@.len(),
            sns@.len() <= i32::MAX,
            first_outbound_error(sns@, stored@, k as nat) is None,
            deltas@ == serial_deltas(stored@, k as nat),
        decreases sns@.len() - k,
    {
        let row = match &stored[k] {
            Some(row) => row,
            None => {
                proof {
                    lemma_first_outbound_error(sns@, stored@, (k + 1) as nat, sns@.len());
                }
                let mut m = String::from_str("序列号「");
                m.append(sns[k].as_str());
                m.append("」不存在");
                return Err(AppError::not_found(m));
            },
        };
        let status = if seen_before(sns, k) {
            String::from_str("SOLD")
        } else {
            row.status.clone()
        };
        if !str_eq(status.as_str(), "IN_STOCK") {
            proof {
                lemma_first_outbound_error(sns@, stored@, (k + 1) as nat, sns@.len());
            }
            let mut m = String::from_str("序列号「");
            m.append(sns[k].as_str());
            m.append("」状态为 ");
            m.append(status.as_str());
            m.append("，不能出库");
            return Err(AppError::conflict(4094, m));
        }
        let pid = row.product_id;
        proof {
            lemma_serial_deltas_bounds(stored@, k as nat);
            lemma_delta_index(deltas@, pid);
        }
        match find_delta(&deltas, pid) {
            Some(j) => {
                let (p, c) = deltas[j];
                deltas.set(j, (p, c + 1));
            },
            None => {
                deltas.push((pid, 1));
            },
        }
        k = k + 1;
    }
    Ok(deltas)
}

} // verus!
