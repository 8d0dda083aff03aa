//! Errors of controllers and a controller made from a name and a function.

use vstd::prelude::*;

verus! {

/// Errors that can occur when building or running a controller.
#[derive(Debug)]
pub enum ControllerError {
    /// The controller could not be started; `source` describes why.
    StartFailed { name: String, source: String },
    /// The controller failed while running; `source` describes why.
    Runtime { name: String, source: String },
    /// The controller is disabled.
    Disabled(String),
    /// The controller (first) needs a feature gate (second) that is off.
    FeatureGateDisabled(String, String),
    /// The configuration of the controller is invalid.
    InvalidConfig { name: String, reason: String },
}

/// What a [`ControllerError`] says, over text values.
pub enum ControllerFault {
    /// The controller could not be started.
    StartFailed { name: Seq<char>, source: Seq<char> },
    /// The controller failed while running.
    Runtime { name: Seq<char>, source: Seq<char> },
    /// The controller is disabled.
    Disabled(Seq<char>),
    /// The controller needs a feature gate that is off.
    FeatureGateDisabled(Seq<char>, Seq<char>),
    /// The configuration of the controller is invalid.
    InvalidConfig { name: Seq<char>, reason: Seq<char> },
}

impl View for ControllerError {
    type V = ControllerFault;

    open spec fn view(&self) -> ControllerFault {
        match self {
            ControllerError::StartFailed { name, source } => ControllerFault::StartFailed {
                name: name@,
                source: source@,
            },
            ControllerError::Runtime { name, source } => ControllerFault::Runtime {
                name: name@,
                source: source@,
            },
            ControllerError::Disabled(n) => ControllerFault::Disabled(n@),
            ControllerError::FeatureGateDisabled(n, g) => ControllerFault::FeatureGateDisabled(
                n@,
                g@,
            ),
            ControllerError::InvalidConfig { name, reason } => ControllerFault::InvalidConfig {
                name: name@,
                reason: reason@,
            },
        }
    }
}

/// The human-readable description of a controller fault.
pub open spec fn fault_message(f: ControllerFault) -> Seq<char> {
    match f {
        ControllerFault::StartFailed { name, source } => "controller "@ + name
            + " failed to start: "@ + source,
        ControllerFault::Runtime { name, source } => "controller "@ + name + " runtime error: "@
            + source,
        ControllerFault::Disabled(n) => "controller "@ + n + " is disabled"@,
        ControllerFault::FeatureGateDisabled(n, g) => "controller "@ + n
            + " requires feature gate "@ + g + " which is not enabled"@,
        ControllerFault::InvalidConfig { name, reason } => "invalid configuration for controller "@
            + name + ": "@ + reason,
    }
}

impl ControllerError {
    /// The human-readable description of this error.
    pub fn message(&self) -> (m: String)
        ensures
            m@ == fault_message(self@),
    {
        match self {
            ControllerError::StartFailed { name, source } => {
                let mut m = "controller ".to_owned();
                m.append(name.as_str());
                m.append(" failed to start: ");
                m.append(source.as_str());
                m
            },
            ControllerError::Runtime { name, source } => {
                let mut m = "controller ".to_owned();
                m.append(name.as_str());
                m.append(" runtime error: ");
                m.append(source.as_str());
                m
            },
            ControllerError::Disabled(n) => {
                let mut m = "controller ".to_owned();
                m.append(n.as_str());
                m.append(" is disabled");
                m
            },
            ControllerError::FeatureGateDisabled(n, g) => {
                let mut m = "controller ".to_owned();
                m.append(n.as_str());
                m.append(" requires feature gate ");
                m.append(g.as_str());
                m.append(" which is not enabled");
                m
            },
            ControllerError::InvalidConfig { name, reason } => {
                let mut m = "invalid configuration for controller ".to_owned();
                m.append(name.as_str());
                m.append(": ");
                m.append(reason.as_str());
                m
            },
        }
    }
}

/// The error that reports a failure which no controller can be named for,
/// described by `source`.
pub fn unknown_runtime_failure(source: String) -> (e: ControllerError)
    ensures
        e@ == (ControllerFault::Runtime { name: "unknown"@, source: source@ }),
{
    ControllerError::Runtime { name: "unknown".to_owned(), source }
}

/// A controller given by a name and the function that runs it.
pub struct FunctionController<F> {
    name: String,
    run_fn: F,
    worker_count: usize,
}

impl<F> FunctionController<F> {
    /// A controller named `name` that runs `run_fn`, with one worker.
    pub fn new(name: &str, run_fn: F) -> (c: FunctionController<F>)
        ensures
            c.spec_name() == name@,
            c.spec_run_fn() == run_fn,
            c.spec_worker_count() == 1,
    {
        FunctionController { name: name.to_owned(), run_fn, worker_count: 1 }
    }

    /// This controller with `count` workers.
    pub fn with_worker_count(self, count: usize) -> (c: FunctionController<F>)
        ensures
            c.spec_name() == self.spec_name(),
            c.spec_run_fn() == self.spec_run_fn(),
            c.spec_worker_count() == count,
    {
        FunctionController { worker_count: count, ..self }
    }

    /// The name of the controller.
    pub closed spec fn spec_name(&self) -> Seq<char> {
        self.name@
    }

    /// The function that runs the controller.
    pub closed spec fn spec_run_fn(&self) -> F {
        self.run_fn
    }

    /// The number of workers of the controller.
    pub closed spec fn spec_worker_count(&self) -> usize {
        self.worker_count
    }

    /// The name of the controller.
    pub fn name(&self) -> (n: &str)
        ensures
            n@ == self.spec_name(),
    {
        self.name.as_str()
    }

    /// The function that runs the controller.
    pub fn run_fn(&self) -> (f: &F)
        ensures
            *f == self.spec_run_fn(),
    {
        &self.run_fn
    }

    /// The number of workers of the controller.
    pub fn worker_count(&self) -> (n: usize)
        ensures
            n == self.spec_worker_count(),
    {
        self.worker_count
    }
}

} // verus!
