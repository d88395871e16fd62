//! On-chain logic of two small fundraising programs: a contribution program
//! that moves tokens from a contributor into a fundraiser vault (directly, or
//! through a lending-market deposit vault), and a fundraiser program that lets
//! an authority register fundraiser records and issue withdrawal orders.
//!
//! Every instruction handler is a function from plain account values to plain
//! account values: the host runtime that dispatches instructions, holds the
//! accounts and performs cross-program token transfers stays outside; the
//! validation rules, the ledger arithmetic and the append-only records are
//! verified here.

pub mod address;
pub mod contribution;
pub mod fundraiser;
