//! Applying a document's stock movements to the product rows locked for them, line by line.

use vstd::prelude::*;

use crate::error::{RepoError, Resource};
use crate::inventory::{
    apply_inbound, find_product, inbound_apply_spec, index_of_product, put_stock, put_stock_spec,
    take_stock, take_stock_spec,
};
use crate::models::Product;
use crate::money::Money;

verus! {

/// How a document moves stock.
#[derive(Debug, Clone, Copy, PartialEq, Eq, Structural)]
pub enum MoveKind {
    /// Goods received at a unit cost: stock up, cost averaged.
    Receive,
    /// Goods taken out; unless `allow_negative_stock`, not below zero.
    Take { allow_negative_stock: bool, for_void: bool },
    /// Goods put back at the current cost.
    Put,
}

/// One stock movement of a document line.
#[derive(Debug, Clone, Copy, PartialEq, Eq, Structural)]
pub struct StockMove {
    pub product_id: i64,
    pub qty: i32,
    pub unit_cost: Money,
}

/// Applying one movement to the locked product `p`.
pub open spec fn move_apply_spec(kind: MoveKind, p: Product, mv: StockMove) -> Result<Product, RepoError> {
    if p.is_deleted {
        Err(RepoError::NotFound(Resource::Product))
    } else {
        match kind {
            MoveKind::Receive => match inbound_apply_spec(p, mv.qty, Some(mv.unit_cost), None) {
                Err(e) => Err(e),
                Ok((q, _)) => Ok(q),
            },
            MoveKind::Take { allow_negative_stock, for_void } => take_stock_spec(
                p,
                mv.qty,
                allow_negative_stock,
                for_void,
            ),
            MoveKind::Put => put_stock_spec(p, mv.qty),
        }
    }
}

fn move_apply(kind: MoveKind, p: &Product, mv: StockMove) -> (r: Result<Product, RepoError>)
    ensures
        r == move_apply_spec(kind, *p, mv),
{
    if p.is_deleted {
        return Err(RepoError::NotFound(Resource::Product));
    }
    match kind {
        MoveKind::Receive => match apply_inbound(p, mv.qty, Some(mv.unit_cost), None) {
            Err(e) => Err(e),
            Ok((q, _)) => Ok(q),
        },
        MoveKind::Take { allow_negative_stock, for_void } => take_stock(
            p,
            mv.qty,
            allow_negative_stock,
            for_void,
        ),
        MoveKind::Put => put_stock(p, mv.qty),
    }
}

/// The outcome of the first `n` movements run against the locked rows `table`: the rows as
/// they then stand and the product written for each movement.
pub open spec fn moves_fold(table: Seq<Product>, moves: Seq<StockMove>, kind: MoveKind, n: nat) -> Result<
    (Seq<Product>, Seq<Product>),
    RepoError,
>
    decreases n,
{
    if n == 0 {
        Ok((table, Seq::empty()))
    } else {
        match moves_fold(table, moves, kind, (n - 1) as nat) {
            Err(e) => Err(e),
            Ok((t, ups)) => {
                let idx = index_of_product(t, moves[n - 1].product_id);
                if idx < 0 {
                    Err(RepoError::NotFound(Resource::Product))
                } else {
                    match move_apply_spec(kind, t[idx], moves[n - 1]) {
                        Err(e) => Err(e),
                        Ok(p) => Ok((t.update(idx, p), ups.push(p))),
                    }
                }
            },
        }
    }
}

pub proof fn lemma_moves_fold_err(table: Seq<Product>, moves: Seq<StockMove>, kind: MoveKind, n: nat, m: nat)
    requires
        n <= m,
        moves_fold(table, moves, kind, n) is Err,
    ensures
        moves_fold(table, moves, kind, m) == moves_fold(table, moves, kind, n),
    decreases m - n,
{
    if n < m {
        lemma_moves_fold_err(table, moves, kind, n, (m - 1) as nat);
    }
}

pub proof fn lemma_moves_fold_len(table: Seq<Product>, moves: Seq<StockMove>, kind: MoveKind, n: nat)
    ensures
        match moves_fold(table, moves, kind, n) {
            Ok((t, ups)) => ups.len() == n && t.len() == table.len(),
            Err(_) => true,
        },
    decreases n,
{
    if n > 0 {
        lemma_moves_fold_len(table, moves, kind, (n - 1) as nat);
        if let Ok((t, ups)) = moves_fold(table, moves, kind, (n - 1) as nat) {
            crate::inventory::lemma_index_of_product(t, moves[n - 1].product_id);
        }
    }
}

pub proof fn lemma_take_fold_qty(table: Seq<Product>, moves: Seq<StockMove>, allow_negative_stock: bool, for_void: bool, n: nat)
    requires
        n <= moves.len(),
        moves_fold(table, moves, MoveKind::Take { allow_negative_stock, for_void }, n) is Ok,
    ensures
        forall|k: int| 0 <= k < n ==> #[trigger] moves[k].qty != i32::MIN,
    decreases n,
{
    if n > 0 {
        lemma_take_fold_qty(table, moves, allow_negative_stock, for_void, (n - 1) as nat);
    }
}

/// Applies `moves` in order to the locked rows `table`. Returns the product written for
/// each movement.
pub fn apply_moves(table: Vec<Product>, moves: &Vec<StockMove>, kind: MoveKind) -> (r: Result<Vec<Product>, RepoError>)
    ensures
        match moves_fold(table@, moves@, kind, moves@.len()) {
            Err(e) => r == Err::<Vec<Product>, RepoError>(e),
            Ok((t, ups)) => r matches Ok(v) && v@ == ups,
        },
{
    let mut work = table;
    let mut updated: Vec<Product> = Vec::new();
    let mut i: usize = 0;
    while i < moves.len()
        invariant
            i <= moves@.len(),
            moves_fold(table@, moves@, kind, i as nat) == Ok::<(Seq<Product>, Seq<Product>), RepoError>(
                (work@, updated@),
            ),
        decreases moves@.len() - i,
    {
        let mv = moves[i];
        let idx = match find_product(&work, mv.product_id) {
            Some(idx) => idx,
            None => {
                proof {
                    lemma_moves_fold_err(table@, moves@, kind, (i + 1) as nat, moves@.len());
                }
                return Err(RepoError::NotFound(Resource::Product));
            },
        };
        match move_apply(kind, &work[idx], mv) {
            Err(e) => {
                proof {
                    lemma_moves_fold_err(table@, moves@, kind, (i + 1) as nat, moves@.len());
                }
                return Err(e);
            },
            Ok(p) => {
                work.set(idx, p.clone());
                updated.push(p);
            },
        }
        i = i + 1;
    }
    Ok(updated)
}

} // verus!
