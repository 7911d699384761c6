//! What a shell client can ask for.

use crate::socket::proto::types::{
    ClearAll, ClientHello, DismissNotification, GetHistory, GetKnownApps, InvokeAction, MarkRead,
    SetDnd,
};
use vstd::prelude::*;

verus! {

/// The content of a client message.
#[derive(Debug)]
pub enum Msg {
    Hello(ClientHello),
    Dismiss(DismissNotification),
    MarkRead(MarkRead),
    ClearAll(ClearAll),
    SetDnd(SetDnd),
    GetHistory(GetHistory),
    InvokeAction(InvokeAction),
    GetKnownApps(GetKnownApps),
}

} // verus!
