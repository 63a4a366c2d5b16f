//! What a client of the management interface makes of answers.

use crate::grpc::service;
use crate::grpc::service::{
    Answer, AnswerView, ConfigAnswer, ConfigAnswerView, Status, StatusView,
};
use crate::net::addr::IpAddr;
use crate::net::addr_text;
use vstd::prelude::*;

verus! {

/// What a text, or the reason why there is none, holds.
pub open spec fn text_result(r: Result<String, Status>) -> Result<Seq<char>, StatusView> {
    match r {
        Ok(s) => Ok(s@),
        Err(e) => Err(e@),
    }
}

/// The message of an answer that tells of success; that of any other is a
/// failure of an unknown kind.
pub open spec fn understood(answer: AnswerView) -> Result<Seq<char>, StatusView> {
    if answer.success {
        Ok(answer.message)
    } else {
        Err(StatusView::Unknown(answer.message))
    }
}

/// The message of an answer that tells of success; that of any other is a
/// failure of an unknown kind.
pub fn outcome(answer: Answer) -> (r: Result<String, Status>)
    ensures
        text_result(r) == understood(answer@),
{
    if answer.success {
        Ok(answer.message)
    } else {
        Err(Status::Unknown(answer.message))
    }
}

/// Nothing where a change of the configuration took place; the reason is a
/// failure of an unknown kind otherwise.
pub open spec fn config_understood(answer: ConfigAnswerView) -> Result<(), StatusView> {
    if answer.ok {
        Ok(())
    } else {
        Err(StatusView::Unknown(answer.error))
    }
}

/// Nothing where a change of the configuration took place; the reason is a
/// failure of an unknown kind otherwise.
pub fn config_outcome(answer: ConfigAnswer) -> (r: Result<(), Status>)
    ensures
        service::plain_status_result(r) == config_understood(answer@),
{
    if answer.ok {
        Ok(())
    } else {
        Err(Status::Unknown(answer.error))
    }
}

/// The address and the port that a server listens at, and how many routes it has.
pub open spec fn server_understood(
    listen_addr: Seq<char>,
    listen_port: u32,
    num_routes: u64,
) -> Result<(IpAddr, u16, u64), StatusView> {
    match addr_text::read_ip(listen_addr) {
        Some(a) => Ok((a, listen_port as u16, num_routes)),
        None => Err(StatusView::Internal("invalid listen_addr"@)),
    }
}

/// The address and the port that a server listens at, and how many routes it has.
pub fn server_info(listen_addr: &str, listen_port: u32, num_routes: u64) -> (r: Result<
    (IpAddr, u16, u64),
    Status,
>)
    ensures
        service::plain_status_result(r) == server_understood(listen_addr@, listen_port, num_routes),
{
    match IpAddr::parse(listen_addr) {
        Some(a) => Ok((a, listen_port as u16, num_routes)),
        None => Err(Status::Internal("invalid listen_addr".to_owned())),
    }
}

} // verus!
