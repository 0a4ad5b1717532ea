//! Socket activation: serving varlink on a socket that the service manager, or
//! `varlinkctl exec:`, has passed to the process.
use crate::external::{
    collects_help, help_sections, report_chain, report_msg, sd_error_text, sd_error_to_string,
};
use color_eyre::eyre::Report;
use libsystemd::errors::SdError;
use vstd::prelude::*;

verus! {

/// What precedes the reason why the passed descriptors could not be received.
pub const ACTIVATION_FAILED: &'static str = "Failed to receive activation fds: ";

/// A listener that yields a single pre-connected socket, then blocks forever.
///
/// Used for `varlinkctl exec:` activation where a connected socket pair is
/// passed on fd 3. After the first `accept()` returns the connection, subsequent
/// calls pend indefinitely (the server will be killed by the parent process once
/// the connection closes).
#[derive(Debug)]
pub struct ActivatedListener<C> {
    /// The connection to yield on the first accept(), consumed after use.
    conn: Option<C>,
}

impl<C> View for ActivatedListener<C> {
    type V = Option<C>;

    /// The connection that is still to be yielded.
    closed spec fn view(&self) -> Option<C> {
        self.conn
    }
}

/// What accepting does to a listener that still holds `held`: what is yielded,
/// where `None` stands for blocking forever, and what is held afterwards.
pub open spec fn accept_step<C>(held: Option<C>) -> (Option<C>, Option<C>) {
    (held, None)
}

/// What the first `calls` calls of accept yield, on a listener that holds
/// `held`.
pub open spec fn accepts<C>(held: Option<C>, calls: nat) -> Seq<Option<C>>
    decreases calls,
{
    if calls == 0 {
        Seq::empty()
    } else {
        let (yielded, left) = accept_step(held);
        seq![yielded] + accepts(left, (calls - 1) as nat)
    }
}

impl<C> ActivatedListener<C> {
    /// A listener that will yield `conn`.
    pub fn new(conn: C) -> (listener: Self)
        ensures
            listener@ == Some(conn),
    {
        ActivatedListener { conn: Some(conn) }
    }

    /// The connection to serve, or `None` where the caller has to block
    /// forever.
    pub fn accept(&mut self) -> (yielded: Option<C>)
        ensures
            (yielded, final(self)@) == accept_step(old(self)@),
    {
        self.conn.take()
    }
}

/// The descriptor to serve on, of those that the service manager passed: the
/// first one. There is none when the process was not socket-activated.
pub fn try_activated_listener<F>(received: Result<Vec<F>, SdError>) -> (activated: Result<
    Option<F>,
    Report,
>)
    ensures
        match received {
            Ok(fds) => activated == Ok::<Option<F>, Report>(
                if fds@.len() > 0 {
                    Some(fds@[0])
                } else {
                    None
                },
            ),
            Err(error) => activated matches Err(report) && {
                &&& report_chain(report) == seq![ACTIVATION_FAILED@ + sd_error_text(error)]
                &&& collects_help(report) ==> help_sections(report).len() == 0
            },
        },
{
    match received {
        Ok(fds) => {
            let mut fds: Vec<F> = fds;
            if fds.len() > 0 {
                Ok(Some(fds.swap_remove(0)))
            } else {
                Ok(None)
            }
        },
        Err(error) => {
            let mut message: String = String::new();
            message.append(ACTIVATION_FAILED);
            message.append(sd_error_to_string(&error).as_str());
            proof {
                assert(message@ =~= ACTIVATION_FAILED@ + sd_error_text(error));
            }
            Err(report_msg(message))
        },
    }
}

/// What to do about varlink when the process starts.
#[derive(Debug)]
pub enum ServeStep<L, E> {
    /// Serve varlink on the listener.
    Serve(L),
    /// Nothing is served, and this is the answer to whether varlink was served.
    Done(Result<bool, E>),
}

/// What ends serving varlink.
#[derive(Debug)]
pub enum ServeEvent<E> {
    /// The server stopped by itself or failed.
    Stopped(Result<(), E>),
    /// The process was asked to shut down.
    Interrupted,
}

/// If the process was socket-activated, serve varlink.
///
/// This follows the systemd pattern used by `systemd-creds` and similar
/// tools: if the process was invoked with an activated socket (e.g. via
/// `varlinkctl exec:`), it serves varlink on that socket and answers
/// `true` so the caller can exit. Otherwise it answers `false` and the
/// process continues with normal CLI handling.
///
/// `listener` is what came of looking for an activated socket.
pub fn try_serve_varlink<L, E>(listener: Result<Option<L>, E>) -> (step: ServeStep<L, E>)
    ensures
        step == match listener {
            Ok(Some(activated)) => ServeStep::Serve(activated),
            Ok(None) => ServeStep::Done(Ok(false)),
            Err(error) => ServeStep::Done(Err(error)),
        },
{
    match listener {
        Ok(Some(activated)) => ServeStep::Serve(activated),
        Ok(None) => ServeStep::Done(Ok(false)),
        Err(error) => ServeStep::Done(Err(error)),
    }
}

/// The answer once varlink was served: `true`, unless the server failed.
pub fn served<E>(event: ServeEvent<E>) -> (answer: Result<bool, E>)
    ensures
        answer == match event {
            ServeEvent::Stopped(Ok(_)) => Ok::<bool, E>(true),
            ServeEvent::Stopped(Err(error)) => Err(error),
            ServeEvent::Interrupted => Ok(true),
        },
{
    match event {
        ServeEvent::Stopped(Ok(())) => Ok(true),
        ServeEvent::Stopped(Err(error)) => Err(error),
        ServeEvent::Interrupted => Ok(true),
    }
}

/// However often accept is called on a fresh listener, the connection is
/// yielded by the first call and by no other.
pub proof fn law_accept_yields_once<C>(conn: C, calls: nat)
    ensures
        accepts(Some(conn), calls).len() == calls,
        forall|call: int|
            0 <= call < calls ==> #[trigger] accepts(Some(conn), calls)[call] == if call == 0 {
                Some(conn)
            } else {
                None
            },
{
    if calls > 0 {
        lemma_accepts_nothing::<C>((calls - 1) as nat);
    }
}

proof fn lemma_accepts_nothing<C>(calls: nat)
    ensures
        accepts(None::<C>, calls).len() == calls,
        forall|call: int| 0 <= call < calls ==> #[trigger] accepts(None::<C>, calls)[call] is None,
    decreases calls,
{
    if calls > 0 {
        lemma_accepts_nothing::<C>((calls - 1) as nat);
    }
}

} // verus!
