//! The gateway lifecycle: one server instance across repeated start,
//! stop and status commands.
//!
//! The state is an explicit value handed to the command handlers; the
//! surrounding application owns it (behind its own lock) together with
//! the actual runtime and listener. Starting is two-phased: the handler
//! asks [`GatewayState::start_begin`] whether a launch is needed,
//! performs the outside work (runtime creation, listener binding) only
//! then, and records success with [`GatewayState::start_commit`].
//! Stopping only clears the `started` flag — the listener is not torn
//! down, deliberately mirroring the observable behaviour this gateway
//! has always had.

use vstd::prelude::*;

verus! {

/// The process-wide gateway state: whether the server counts as started,
/// and whether the runtime and the store-connection factory slots are
/// filled.
#[derive(Debug, Clone, Copy, PartialEq, Eq, Structural)]
pub struct GatewayState {
    pub started: bool,
    pub runtime_present: bool,
    pub client_present: bool,
}

/// One whole start operation on the state, with whether it launches a
/// listener: an already-started gateway is left untouched and launches
/// nothing; otherwise the runtime slot is filled and the flag set.
pub open spec fn start_step(s: GatewayState) -> (GatewayState, bool) {
    if s.started {
        (s, false)
    } else {
        (
            GatewayState {
                started: true,
                runtime_present: true,
                client_present: s.client_present,
            },
            true,
        )
    }
}

impl GatewayState {
    /// The state at process start: nothing running, nothing initialized.
    pub fn new() -> (s: Self)
        ensures
            s == (GatewayState { started: false, runtime_present: false, client_present: false }),
    {
        GatewayState { started: false, runtime_present: false, client_present: false }
    }

    /// First phase of starting: report whether a runtime and listener
    /// must be launched. A started gateway needs none — the second start
    /// succeeds as a no-op and binds no second listener.
    pub fn start_begin(&self) -> (launch: bool)
        ensures
            launch == !self.started,
            launch == start_step(*self).1,
    {
        !self.started
    }

    /// Second phase of starting, after the runtime was created and the
    /// listener scheduled: record both.
    pub fn start_commit(&mut self)
        ensures
            final(self).started && final(self).runtime_present,
            final(self).client_present == old(self).client_present,
            !old(self).started ==> *final(self) == start_step(*old(self)).0,
    {
        self.started = true;
        self.runtime_present = true;
    }

    /// Record that the store-connection factory was initialized.
    pub fn mark_client_ready(&mut self)
        ensures
            *final(self) == (GatewayState { client_present: true, ..*old(self) }),
    {
        self.client_present = true;
    }

    /// Lock-free status read.
    pub fn server_status(&self) -> (running: bool)
        ensures
            running == self.started,
    {
        self.started
    }
}

/// Law: starting twice in a row succeeds both times (a start decision
/// never fails; only the outside launch work can) and leaves exactly one
/// listener launched — after the first start the state is started, and
/// the second start changes nothing and launches nothing.
pub proof fn lemma_start_idempotent(s: GatewayState)
    ensures
        start_step(s).0.started,
        start_step(start_step(s).0) == (start_step(s).0, false),
{
}

/// Stop the gateway: clear the `started` flag. The runtime and the
/// listener are not released — status reports `stopped` while the socket
/// may still accept connections, as this gateway has always behaved.
pub fn stop_http_server(state: &mut GatewayState)
    ensures
        *final(state) == (GatewayState { started: false, ..*old(state) }),
{
    state.started = false;
}

/// The `HTTP.SERVER.STOP` command: stop the gateway and report it.
pub fn http_server_stop(state: &mut GatewayState) -> (r: String)
    ensures
        *final(state) == (GatewayState { started: false, ..*old(state) }),
        r@ == "HTTP server stopped"@,
{
    stop_http_server(state);
    String::from_str("HTTP server stopped")
}

/// The `HTTP.SERVER.STATUS` command: report `running` or `stopped` from
/// the flag alone.
pub fn http_server_status(state: &GatewayState) -> (r: String)
    ensures
        state.started ==> r@ == "HTTP server status: running"@,
        !state.started ==> r@ == "HTTP server status: stopped"@,
{
    if state.server_status() {
        String::from_str("HTTP server status: running")
    } else {
        String::from_str("HTTP server status: stopped")
    }
}

/// The `HTTP.SERVER.START` command's success reply.
pub fn start_success_message() -> (r: String)
    ensures
        r@ == "HTTP server started on port 4887"@,
{
    String::from_str("HTTP server started on port 4887")
}

/// The `HTTP.SERVER.START` command's failure reply, wrapping the launch
/// error.
pub fn start_failure_message(error: &str) -> (r: String)
    ensures
        r@ == "Failed to start HTTP server: "@ + error@,
{
    let mut r = String::from_str("Failed to start HTTP server: ");
    r.append(error);
    r
}

} // verus!
