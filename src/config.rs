use vstd::prelude::*;

verus! {

/// Verbosity of a log or trace event, from the most to the least verbose.
#[derive(Clone, Copy, Debug, PartialEq, Eq, Structural)]
pub enum Level {
    Trace,
    Debug,
    Info,
    Warn,
    Error,
}

/// The lower-case name of a level, as a filter directive writes it.
pub open spec fn level_name(level: Level) -> Seq<char> {
    match level {
        Level::Trace => "trace"@,
        Level::Debug => "debug"@,
        Level::Info => "info"@,
        Level::Warn => "warn"@,
        Level::Error => "error"@,
    }
}

impl Level {
    pub fn name(self) -> (r: &'static str)
        ensures
            r@ == level_name(self),
    {
        match self {
            Level::Trace => "trace",
            Level::Debug => "debug",
            Level::Info => "info",
            Level::Warn => "warn",
            Level::Error => "error",
        }
    }
}

/// The directive that enables events of `target` from `level` on: `target=level`.
pub open spec fn directive_of(target: Seq<char>, level: Level) -> Seq<char> {
    target + "="@ + level_name(level)
}

/// Builds the filter directive `target=level`.
pub fn filter_directive(target: &str, level: Level) -> (r: String)
    ensures
        r@ == directive_of(target@, level),
{
    let mut r = String::from_str(target);
    r.append("=");
    r.append(level.name());
    r
}

/// One key/value pair that describes the process emitting traces.
pub struct ResourceAttribute {
    pub key: String,
    pub value: String,
}

/// Address of the trace collector, reached over gRPC.
pub open spec fn collector_endpoint() -> Seq<char> {
    "http://127.0.0.1:4317"@
}

/// Seconds an export to the collector may take before it is abandoned.
pub const EXPORT_TIMEOUT_SECS: u64 = 3;

/// Everything needed to install the trace pipeline and the subscriber.
pub struct TelemetryConfig {
    /// Where spans are exported.
    pub endpoint: String,
    /// How long one export may take, in seconds.
    pub export_timeout_secs: u64,
    /// Attributes attached to every exported span.
    pub resource: Vec<ResourceAttribute>,
    /// Level enabled for every target that no directive names.
    pub default_level: Level,
    /// Directive that enables the service's own events.
    pub filter_directive: String,
}

impl TelemetryConfig {
    /// The resource attributes as key/value pairs, in order.
    pub open spec fn resource_view(&self) -> Seq<(Seq<char>, Seq<char>)> {
        self.resource@.map_values(|a: ResourceAttribute| (a.key@, a.value@))
    }

    /// Configuration for a development deployment of `service_name`: spans
    /// go to the local collector with a three second timeout, only errors
    /// are logged by default, and the service's own events from `info` on.
    pub fn new(service_name: &str) -> (r: Self)
        ensures
            r.endpoint@ == collector_endpoint(),
            r.export_timeout_secs == EXPORT_TIMEOUT_SECS,
            r.resource_view() == seq![
                ("deployment.environment"@, "dev"@),
                ("service.name"@, service_name@),
            ],
            r.default_level == Level::Error,
            r.filter_directive@ == directive_of(service_name@, Level::Info),
    {
        let mut resource: Vec<ResourceAttribute> = Vec::new();
        resource.push(
            ResourceAttribute {
                key: String::from_str("deployment.environment"),
                value: String::from_str("dev"),
            },
        );
        resource.push(
            ResourceAttribute {
                key: String::from_str("service.name"),
                value: String::from_str(service_name),
            },
        );
        let r = TelemetryConfig {
            endpoint: String::from_str("http://127.0.0.1:4317"),
            export_timeout_secs: EXPORT_TIMEOUT_SECS,
            resource,
            default_level: Level::Error,
            filter_directive: filter_directive(service_name, Level::Info),
        };
        assert(r.resource_view() =~= seq![
            ("deployment.environment"@, "dev"@),
            ("service.name"@, service_name@),
        ]);
        r
    }
}

} // verus!
