//! Whether a session can start.

use vstd::prelude::*;
use vstd::string::*;

verus! {

/// What comes of looking for a pool.
#[derive(Debug, PartialEq, Eq)]
pub enum PoolSearch {
    /// A pool was reached: the session starts.
    Reached,
    /// None was reached: there is nothing to do but to say so.
    NoneReached { notice: String },
}

/// What comes of looking for a pool, as contracts see it.
pub enum PoolSearchView {
    Reached,
    NoneReached { notice: Seq<char> },
}

impl View for PoolSearch {
    type V = PoolSearchView;

    open spec fn view(&self) -> PoolSearchView {
        match self {
            PoolSearch::Reached => PoolSearchView::Reached,
            PoolSearch::NoneReached { notice } => PoolSearchView::NoneReached { notice: notice@ },
        }
    }
}

/// Decides whether a session with a pool in the clear starts.
pub fn handle_tcp_pool(reached: bool) -> (r: PoolSearch)
    ensures
        r@ == (if reached {
            PoolSearchView::Reached
        } else {
            PoolSearchView::NoneReached { notice: "所有TCP矿池均不可链接。请修改后重试"@ }
        }),
{
    if reached {
        PoolSearch::Reached
    } else {
        PoolSearch::NoneReached { notice: "所有TCP矿池均不可链接。请修改后重试".to_owned() }
    }
}

/// Decides whether a session with a pool under encryption starts.
pub fn handle_tls_pool(reached: bool) -> (r: PoolSearch)
    ensures
        r@ == (if reached {
            PoolSearchView::Reached
        } else {
            PoolSearchView::NoneReached { notice: "所有SSL矿池均不可链接。请修改后重试"@ }
        }),
{
    if reached {
        PoolSearch::Reached
    } else {
        PoolSearch::NoneReached { notice: "所有SSL矿池均不可链接。请修改后重试".to_owned() }
    }
}

} // verus!
