use vstd::prelude::*;

verus! {

/// What ended the process: a failure before serving began, or the first of
/// the server's own end and an interrupt signal.
#[derive(Clone, Copy, Debug, PartialEq, Eq, Structural)]
pub enum Termination {
    /// The settings were refused or the initial clone failed.
    StartupFailed,
    /// The server could not bind its address.
    BindFailed,
    /// The running server stopped with an error.
    ServerFailed,
    /// The running server stopped by itself without error.
    ServerStopped,
    /// An interrupt signal arrived while serving.
    Interrupted,
}

impl Termination {
    /// Whether this end is a failure rather than an orderly stop.
    pub fn is_failure(&self) -> (r: bool)
        ensures
            r <==> (*self == Termination::StartupFailed || *self == Termination::BindFailed
                || *self == Termination::ServerFailed),
    {
        match self {
            Termination::StartupFailed | Termination::BindFailed | Termination::ServerFailed => true,
            Termination::ServerStopped | Termination::Interrupted => false,
        }
    }

    /// The process's exit status: non-zero exactly when serving never began.
    pub fn exit_code(&self) -> (r: i32)
        ensures
            (*self == Termination::StartupFailed || *self == Termination::BindFailed) ==> r == 1,
            !(*self == Termination::StartupFailed || *self == Termination::BindFailed) ==> r == 0,
    {
        match self {
            Termination::StartupFailed | Termination::BindFailed => 1,
            _ => 0,
        }
    }

    /// The line logged when the process winds down for this reason.
    pub fn message(&self) -> (r: &'static str)
        ensures
            *self == Termination::StartupFailed ==> r@ == "startup failed, not serving"@,
            *self == Termination::BindFailed ==> r@ == "web server could not bind its address"@,
            *self == Termination::ServerFailed ==> r@ == "web server stopped with an error"@,
            *self == Termination::ServerStopped ==> r@ == "web server stopped normally"@,
            *self == Termination::Interrupted ==> r@ == "interrupt received, graceful shutdown"@,
    {
        match self {
            Termination::StartupFailed => "startup failed, not serving",
            Termination::BindFailed => "web server could not bind its address",
            Termination::ServerFailed => "web server stopped with an error",
            Termination::ServerStopped => "web server stopped normally",
            Termination::Interrupted => "interrupt received, graceful shutdown",
        }
    }
}

} // verus!
