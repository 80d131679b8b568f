//! How clients compare: two clients are the same where their addresses are, and
//! a client that is due sooner counts as the greater, so that a heap that keeps
//! the greatest on top keeps on top the client that is due first.

use vstd::prelude::*;
use vstd::std_specs::cmp::{PartialEqSpecImpl, PartialOrdSpecImpl};
use std::cmp::Ordering;
use crate::client::Client;

verus! {

impl<S> PartialEq for Client<S> {
    fn eq(&self, other: &Self) -> (same: bool) {
        self.addr() == other.addr()
    }
}

impl<S> PartialEqSpecImpl for Client<S> {
    open spec fn obeys_eq_spec() -> bool {
        true
    }

    open spec fn eq_spec(&self, other: &Self) -> bool {
        self@.addr == other@.addr
    }
}

impl<S> PartialOrd for Client<S> {
    fn partial_cmp(&self, other: &Self) -> (order: Option<Ordering>) {
        let mine: i128 = self.send_next().unix_nanos();
        let theirs: i128 = other.send_next().unix_nanos();
        if theirs < mine {
            Some(Ordering::Less)
        } else if theirs == mine {
            Some(Ordering::Equal)
        } else {
            Some(Ordering::Greater)
        }
    }
}

impl<S> PartialOrdSpecImpl for Client<S> {
    open spec fn obeys_partial_cmp_spec() -> bool {
        true
    }

    open spec fn partial_cmp_spec(&self, other: &Self) -> Option<Ordering> {
        if other@.send_next < self@.send_next {
            Some(Ordering::Less)
        } else if other@.send_next == self@.send_next {
            Some(Ordering::Equal)
        } else {
            Some(Ordering::Greater)
        }
    }
}

} // verus!
