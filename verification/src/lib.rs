//! Shared building blocks of the VoIP services: the error type, the common
//! data types, trace propagation, the event bus core and the supervised
//! service loops.
//!
//! The library talks to no broker and waits on no timer. Where a service does,
//! the caller performs the step and the library decides: what to send, what
//! an outcome means, when a loop ends. Of its surroundings it reads only the
//! clock, the host name and the random source of fresh identifiers.

use vstd::prelude::*;
use vstd::string::StringExecFns;

pub mod errors;
pub mod events;
pub mod ids;
pub mod media;
pub mod signalling;
pub mod supervision;
pub mod telemetry;
pub mod text;
pub mod types;

pub use errors::ErrorContext;
pub use errors::VoipError;
pub use events::EventBus;
pub use events::EventHandler;
pub use telemetry::TraceContext;
pub use types::CallId;
pub use types::ServiceConfig;
pub use types::ServiceInfo;

verus! {

/// Version information
pub const VERSION: &'static str = "0.1.0";

/// Prefix shared by every subject and metric of the platform.
pub const SERVICE_PREFIX: &'static str = "voip";

/// One step of bringing a service up.
#[derive(Debug, Clone, PartialEq, Eq)]
pub enum StartupStep {
    /// Set up logging for the service at the configured level.
    InitTelemetry { service: String, log_level: String },
    /// Describe this instance of the service.
    DescribeService { name: String, version: String },
    /// Connect to the event bus at this address.
    ConnectBus { url: String },
    /// Register the instance with service discovery at this address.
    RegisterService { consul_addr: String },
}

/// The mathematical value of a [`StartupStep`].
pub enum StartupStepView {
    InitTelemetry { service: Seq<char>, log_level: Seq<char> },
    DescribeService { name: Seq<char>, version: Seq<char> },
    ConnectBus { url: Seq<char> },
    RegisterService { consul_addr: Seq<char> },
}

impl View for StartupStep {
    type V = StartupStepView;

    open spec fn view(&self) -> StartupStepView {
        match self {
            StartupStep::InitTelemetry { service, log_level } => StartupStepView::InitTelemetry {
                service: service@,
                log_level: log_level@,
            },
            StartupStep::DescribeService { name, version } => StartupStepView::DescribeService {
                name: name@,
                version: version@,
            },
            StartupStep::ConnectBus { url } => StartupStepView::ConnectBus { url: url@ },
            StartupStep::RegisterService { consul_addr } => StartupStepView::RegisterService {
                consul_addr: consul_addr@,
            },
        }
    }
}

/// The steps that bring up the service `name` under `config`: telemetry, the
/// description of the instance, the bus, and the registration with service
/// discovery where an address for it is configured.
pub open spec fn startup_steps(name: Seq<char>, config: ServiceConfig) -> Seq<StartupStepView> {
    let common = seq![
        StartupStepView::InitTelemetry { service: name, log_level: config.log_level@ },
        StartupStepView::DescribeService { name: name, version: VERSION@ },
        StartupStepView::ConnectBus { url: config.nats_url@ },
    ];
    match config.consul_addr {
        Some(addr) => common.push(StartupStepView::RegisterService { consul_addr: addr@ }),
        None => common,
    }
}

/// The views of a sequence of steps.
pub open spec fn step_views(steps: Seq<StartupStep>) -> Seq<StartupStepView> {
    Seq::new(steps.len(), |i: int| steps[i]@)
}

/// Initialize a service with common setup: the steps to take, in order. The
/// caller carries them out and stops at the first that fails.
pub fn init_service(name: &str, config: &ServiceConfig) -> (steps: Vec<StartupStep>)
    ensures
        step_views(steps@) == startup_steps(name@, *config),
{
    let mut steps: Vec<StartupStep> = Vec::new();
    steps.push(
        StartupStep::InitTelemetry {
            service: String::from_str(name),
            log_level: config.log_level.clone(),
        },
    );
    steps.push(
        StartupStep::DescribeService {
            name: String::from_str(name),
            version: String::from_str(VERSION),
        },
    );
    steps.push(StartupStep::ConnectBus { url: config.nats_url.clone() });
    match &config.consul_addr {
        Some(addr) => {
            steps.push(StartupStep::RegisterService { consul_addr: addr.clone() });
        },
        None => {},
    }
    assert(step_views(steps@) =~= startup_steps(name@, *config));
    steps
}

} // verus!
