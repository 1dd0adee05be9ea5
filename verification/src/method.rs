//! Method identification.
//!
//! An AMQP method frame is classified by the pair `(class_id, method_id)`.
//! The runtime routes synchronous responses and management decisions by
//! this key alone; the argument payload stays opaque.

use vstd::prelude::*;

verus! {

/// Identifies one AMQP method: `(class_id, method_id)`.
#[derive(Clone, Copy, Debug, PartialEq, Eq, Structural, Hash)]
pub struct MethodKey {
    pub class_id: u16,
    pub method_id: u16,
}

pub open spec fn spec_key(class_id: u16, method_id: u16) -> MethodKey {
    MethodKey { class_id, method_id }
}

/// `Connection.Close`, sent or received on channel 0.
pub open spec fn spec_connection_close() -> MethodKey {
    spec_key(10, 50)
}

/// `Connection.CloseOk`.
pub open spec fn spec_connection_close_ok() -> MethodKey {
    spec_key(10, 51)
}

/// `Connection.Blocked`.
pub open spec fn spec_connection_blocked() -> MethodKey {
    spec_key(10, 60)
}

/// `Connection.Unblocked`.
pub open spec fn spec_connection_unblocked() -> MethodKey {
    spec_key(10, 61)
}

/// `Channel.Open`.
pub open spec fn spec_channel_open() -> MethodKey {
    spec_key(20, 10)
}

/// `Channel.OpenOk`.
pub open spec fn spec_channel_open_ok() -> MethodKey {
    spec_key(20, 11)
}

/// `Channel.Close`.
pub open spec fn spec_channel_close() -> MethodKey {
    spec_key(20, 40)
}

/// `Channel.CloseOk`.
pub open spec fn spec_channel_close_ok() -> MethodKey {
    spec_key(20, 41)
}

/// `Basic.Return`, which starts an undeliverable-message content flow.
pub open spec fn spec_basic_return() -> MethodKey {
    spec_key(60, 50)
}

/// `Basic.Deliver`, which starts a delivery content flow.
pub open spec fn spec_basic_deliver() -> MethodKey {
    spec_key(60, 60)
}

/// `Basic.GetOk`, which starts a polled-get content flow.
pub open spec fn spec_basic_get_ok() -> MethodKey {
    spec_key(60, 71)
}

/// Whether a method opens a content flow: its content-header and body
/// frames follow on the same channel.
pub open spec fn spec_starts_content(k: MethodKey) -> bool {
    k == spec_basic_return() || k == spec_basic_deliver() || k == spec_basic_get_ok()
}

pub fn key(class_id: u16, method_id: u16) -> (k: MethodKey)
    ensures
        k == spec_key(class_id, method_id),
{
    MethodKey { class_id, method_id }
}

pub fn connection_close() -> (k: MethodKey)
    ensures
        k == spec_connection_close(),
{
    MethodKey { class_id: 10, method_id: 50 }
}

pub fn connection_close_ok() -> (k: MethodKey)
    ensures
        k == spec_connection_close_ok(),
{
    MethodKey { class_id: 10, method_id: 51 }
}

pub fn connection_blocked() -> (k: MethodKey)
    ensures
        k == spec_connection_blocked(),
{
    MethodKey { class_id: 10, method_id: 60 }
}

pub fn connection_unblocked() -> (k: MethodKey)
    ensures
        k == spec_connection_unblocked(),
{
    MethodKey { class_id: 10, method_id: 61 }
}

pub fn channel_open() -> (k: MethodKey)
    ensures
        k == spec_channel_open(),
{
    MethodKey { class_id: 20, method_id: 10 }
}

pub fn basic_return() -> (k: MethodKey)
    ensures
        k == spec_basic_return(),
{
    MethodKey { class_id: 60, method_id: 50 }
}

pub fn basic_deliver() -> (k: MethodKey)
    ensures
        k == spec_basic_deliver(),
{
    MethodKey { class_id: 60, method_id: 60 }
}

pub fn basic_get_ok() -> (k: MethodKey)
    ensures
        k == spec_basic_get_ok(),
{
    MethodKey { class_id: 60, method_id: 71 }
}

/// Whether `k` opens a content flow.
pub fn starts_content(k: MethodKey) -> (b: bool)
    ensures
        b == spec_starts_content(k),
{
    k.class_id == 60 && (k.method_id == 50 || k.method_id == 60 || k.method_id == 71)
}

pub fn channel_open_ok() -> (k: MethodKey)
    ensures
        k == spec_channel_open_ok(),
{
    MethodKey { class_id: 20, method_id: 11 }
}

pub fn channel_close() -> (k: MethodKey)
    ensures
        k == spec_channel_close(),
{
    MethodKey { class_id: 20, method_id: 40 }
}

pub fn channel_close_ok() -> (k: MethodKey)
    ensures
        k == spec_channel_close_ok(),
{
    MethodKey { class_id: 20, method_id: 41 }
}

} // verus!
