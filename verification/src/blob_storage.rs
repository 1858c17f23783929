//! Opening readers and writers of blob storage.

use vstd::prelude::*;
use crate::bridge::Bridge;
use crate::call::{submit, submits, Rejection, Submission};
use crate::error::IndyError;
use crate::reply::{resolve, resolves_to, Reply};

verus! {

/// Prepares the call that opens a reader of the storage type `xtype` with
/// the configuration `config_json`. The two texts are the call's arguments,
/// in this order.
pub fn open_reader<S>(bridge: &mut Bridge<S>, slot: S, xtype: &str, config_json: &str) -> (outcome:
    Result<Submission, Rejection<S>>)
    ensures
        final(bridge)@.inv(),
        submits(old(bridge)@, slot, seq![xtype, config_json], final(bridge)@, outcome),
{
    let texts: Vec<&str> = vec![xtype, config_json];
    assert(texts@ =~= seq![xtype, config_json]);
    submit(bridge, slot, &texts)
}

/// Resolves the call that opens a reader: the handle of the reader, or the
/// structured error.
pub fn u_open_reader(reply: Reply<i32>) -> (result: Result<i32, IndyError>)
    ensures
        resolves_to(reply, result),
{
    resolve(reply)
}

/// Prepares the call that opens a writer of the storage type `xtype` with
/// the configuration `config_json`. The two texts are the call's arguments,
/// in this order.
pub fn open_writer<S>(bridge: &mut Bridge<S>, slot: S, xtype: &str, config_json: &str) -> (outcome:
    Result<Submission, Rejection<S>>)
    ensures
        final(bridge)@.inv(),
        submits(old(bridge)@, slot, seq![xtype, config_json], final(bridge)@, outcome),
{
    let texts: Vec<&str> = vec![xtype, config_json];
    assert(texts@ =~= seq![xtype, config_json]);
    submit(bridge, slot, &texts)
}

/// Resolves the call that opens a writer: the handle of the writer, or the
/// structured error.
pub fn u_open_writer(reply: Reply<i32>) -> (result: Result<i32, IndyError>)
    ensures
        resolves_to(reply, result),
{
    resolve(reply)
}

} // verus!
