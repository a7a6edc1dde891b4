//! The command dispatcher and the transport-event handlers.
//!
//! `dispatch_check` is the UI-facing gate of a dispatch: it validates the
//! command name against the closed table, the arguments against the
//! command's schema, and the supervisor's state, in that order, so that an
//! unknown name or a malformed argument never reaches the worker and a
//! dispatch against a worker that is not Ready fails fast. The remaining
//! functions settle an outstanding call from what the host observed: a
//! frame that arrived, a deadline that passed, a broken transport, or a
//! session shutdown.

use vstd::prelude::*;
use crate::codec::MAX_PAYLOAD;
use crate::codec::RequestFrame;
use crate::codec::ResponseFrame;
use crate::codec::encode_args_payload;
use crate::codec::encode_request;
use crate::codec::spec_args_payload;
use crate::codec::spec_encode_request;
use crate::codec::WireStatus;
use crate::codec::spec_decode_response;
use crate::command::Command;
use crate::command::RawArguments;
use crate::command::args_valid;
use crate::command::command_of_name;
use crate::command::spec_args_valid;
use crate::command::spec_command_of_name;
use crate::errors::DispatchError;
use crate::supervisor::Supervisor;
use crate::supervisor::SupervisorState;
use crate::supervisor::spec_note_transport_error;
use crate::supervisor::spec_shutdown;
use crate::transport::OutstandingSet;

verus! {

/// The outcome of the dispatcher's pre-flight gate: the command to send,
/// or the failure the caller gets without any worker interaction.
pub open spec fn spec_dispatch_check(name: Seq<char>, a: RawArguments, st: SupervisorState) -> Result<
    Command,
    DispatchError,
> {
    match spec_command_of_name(name) {
        None => Err(DispatchError::UnknownCommand),
        Some(c) => if !spec_args_valid(c, a) {
            Err(DispatchError::InvalidArgument)
        } else if st != SupervisorState::Ready {
            Err(DispatchError::WorkerUnavailable)
        } else {
            Ok(c)
        },
    }
}

/// The dispatcher's pre-flight gate. An unknown name fails with
/// UnknownCommand and a schema violation with InvalidArgument, both
/// before any process interaction; valid input against a worker that is
/// not Ready fails fast with WorkerUnavailable; otherwise the dispatch
/// may proceed with the returned command.
pub fn dispatch_check(name: &str, args: &RawArguments, sup: &Supervisor) -> (r: Result<
    Command,
    DispatchError,
>)
    ensures
        r == spec_dispatch_check(name@, *args, sup.state),
{
    match command_of_name(name) {
        None => Err(DispatchError::UnknownCommand),
        Some(c) => {
            if !args_valid(c, args) {
                Err(DispatchError::InvalidArgument)
            } else if !matches!(sup.state, SupervisorState::Ready) {
                Err(DispatchError::WorkerUnavailable)
            } else {
                Ok(c)
            }
        },
    }
}

/// For every valid command name and well-formed arguments, a dispatch
/// while the worker is not Ready fails with WorkerUnavailable — it never
/// proceeds to a call.
pub proof fn lemma_dispatch_unavailable(name: Seq<char>, a: RawArguments, st: SupervisorState)
    requires
        spec_command_of_name(name) is Some,
        spec_args_valid(spec_command_of_name(name)->Some_0, a),
        st != SupervisorState::Ready,
    ensures
        spec_dispatch_check(name, a, st) == Err::<Command, DispatchError>(
            DispatchError::WorkerUnavailable,
        ),
{
}

/// An unknown command name fails with UnknownCommand whatever the
/// arguments and whatever the worker's state: it never reaches the
/// transport.
pub proof fn lemma_unknown_command_local(name: Seq<char>, a: RawArguments, st: SupervisorState)
    requires
        spec_command_of_name(name) is None,
    ensures
        spec_dispatch_check(name, a, st) == Err::<Command, DispatchError>(
            DispatchError::UnknownCommand,
        ),
{
}

/// A schema violation fails with InvalidArgument whatever the worker's
/// state: it never reaches the transport.
pub proof fn lemma_invalid_argument_local(name: Seq<char>, a: RawArguments, st: SupervisorState)
    requires
        spec_command_of_name(name) is Some,
        !spec_args_valid(spec_command_of_name(name)->Some_0, a),
    ensures
        spec_dispatch_check(name, a, st) == Err::<Command, DispatchError>(
            DispatchError::InvalidArgument,
        ),
{
}

/// Begins a dispatch: runs the pre-flight gate, and on success registers
/// a fresh correlation id and encodes the request frame for the host to
/// send. A gate failure, or an argument payload too large for the
/// envelope's length field, leaves the outstanding set unchanged and
/// reaches no worker.
pub fn dispatch_begin(
    name: &str,
    args: &RawArguments,
    sup: &Supervisor,
    outstanding: &mut OutstandingSet,
) -> (r: Result<(u64, Vec<u8>), DispatchError>)
    requires
        old(outstanding).wf(),
        old(outstanding).next_id < u64::MAX,
    ensures
        final(outstanding).wf(),
        spec_dispatch_check(name@, *args, sup.state) matches Err(e) ==> r == Err::<
            (u64, Vec<u8>),
            DispatchError,
        >(e) && *final(outstanding) == *old(outstanding),
        spec_dispatch_check(name@, *args, sup.state) matches Ok(c) ==> {
            if spec_args_payload(c, *args).len() <= MAX_PAYLOAD {
                &&& r matches Ok(p)
                &&& p.0 == old(outstanding).next_id
                &&& !old(outstanding).ids().contains(p.0)
                &&& final(outstanding).ids() == old(outstanding).ids().insert(p.0)
                &&& final(outstanding).next_id == p.0 + 1
                &&& p.1@ == spec_encode_request(p.0, c, spec_args_payload(c, *args))
            } else {
                r == Err::<(u64, Vec<u8>), DispatchError>(DispatchError::InvalidArgument)
                    && *final(outstanding) == *old(outstanding)
            }
        },
{
    let c = match dispatch_check(name, args, sup) {
        Err(e) => {
            return Err(e);
        },
        Ok(c) => c,
    };
    let payload = encode_args_payload(c, args);
    if payload.len() > MAX_PAYLOAD {
        return Err(DispatchError::InvalidArgument);
    }
    let id = outstanding.register();
    let frame = encode_request(&RequestFrame { corr_id: id, command: c, payload });
    Ok((id, frame))
}

/// A frame arrived while calls are outstanding: decode it and correlate.
/// A frame that decodes to a response whose correlation id is outstanding
/// resolves that one id and is delivered; anything else — an ill-formed
/// frame, or a late, duplicate or unknown correlation id — is discarded
/// and changes nothing.
pub fn on_frame(outstanding: &mut OutstandingSet, frame: &Vec<u8>) -> (r: Option<ResponseFrame>)
    requires
        old(outstanding).wf(),
    ensures
        final(outstanding).wf(),
        final(outstanding).next_id == old(outstanding).next_id,
        match spec_decode_response(frame@) {
            Some((id, st, p)) => if old(outstanding).ids().contains(id) {
                &&& r matches Some(f) && f.corr_id == id && f.status == st && f.payload@ == p
                &&& final(outstanding).ids() == old(outstanding).ids().remove(id)
            } else {
                r is None && *final(outstanding) == *old(outstanding)
            },
            None => r is None && *final(outstanding) == *old(outstanding),
        },
{
    match crate::codec::decode_response(frame) {
        None => None,
        Some(f) => {
            if outstanding.resolve(f.corr_id) {
                Some(f)
            } else {
                None
            }
        },
    }
}

/// Maps a delivered response to the caller-facing outcome: a Success
/// payload is the result; InvalidState and Failure become their entries
/// in the stable error taxonomy, the worker's message kept opaque.
pub fn interpret_response(f: ResponseFrame) -> (r: Result<Vec<u8>, DispatchError>)
    ensures
        f.status == WireStatus::Success ==> (r matches Ok(p) && p@ == f.payload@),
        f.status == WireStatus::InvalidState ==> r == Err::<Vec<u8>, DispatchError>(
            DispatchError::InvalidState,
        ),
        f.status == WireStatus::Failure ==> (r matches Err(e) && e matches
            DispatchError::WorkerError(m) && m@ == f.payload@),
{
    match f.status {
        WireStatus::Success => Ok(f.payload),
        WireStatus::InvalidState => Err(DispatchError::InvalidState),
        WireStatus::Failure => Err(DispatchError::WorkerError(f.payload)),
    }
}

/// The call's deadline passed with no correlated response: the call
/// leaves the outstanding set — a response arriving later finds its id
/// gone and is discarded — and the caller gets Timeout.
pub fn fail_timeout(outstanding: &mut OutstandingSet, id: u64) -> (r: DispatchError)
    requires
        old(outstanding).wf(),
    ensures
        final(outstanding).wf(),
        final(outstanding).ids() == old(outstanding).ids().remove(id),
        final(outstanding).next_id == old(outstanding).next_id,
        r == DispatchError::Timeout,
{
    let _ = outstanding.resolve(id);
    DispatchError::Timeout
}

/// The call failed at the transport level (connection refused or reset):
/// the call leaves the outstanding set, the supervisor falls from Ready
/// to Degraded, and the caller gets WorkerUnavailable.
pub fn fail_transport(outstanding: &mut OutstandingSet, sup: &mut Supervisor, id: u64) -> (r:
    DispatchError)
    requires
        old(outstanding).wf(),
        old(sup).wf(),
    ensures
        final(outstanding).wf(),
        final(outstanding).ids() == old(outstanding).ids().remove(id),
        final(outstanding).next_id == old(outstanding).next_id,
        final(sup).wf(),
        *final(sup) == spec_note_transport_error(*old(sup)),
        final(sup).launches == old(sup).launches,
        r == DispatchError::WorkerUnavailable,
{
    let _ = outstanding.resolve(id);
    sup.note_transport_error();
    DispatchError::WorkerUnavailable
}

/// The session is shutting down: the supervisor stops, every outstanding
/// call is canceled, and the canceled correlation ids are returned, in
/// registration order, so the host can resolve each waiter with
/// Canceled.
pub fn cancel_session(outstanding: &mut OutstandingSet, sup: &mut Supervisor) -> (canceled: Vec<
    u64,
>)
    requires
        old(outstanding).wf(),
        old(sup).wf(),
    ensures
        final(outstanding).wf(),
        final(outstanding).ids() == Set::<u64>::empty(),
        final(outstanding).next_id == old(outstanding).next_id,
        canceled@ == old(outstanding).pending@,
        final(sup).wf(),
        *final(sup) == spec_shutdown(*old(sup)),
        final(sup).state == SupervisorState::Stopped,
{
    sup.shutdown();
    outstanding.cancel_all()
}

} // verus!

