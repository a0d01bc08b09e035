//! Common types shared across services

use crate::errors::VoipError;
use crate::ids::fresh_id;
use crate::ids::id_text;
use crate::ids::id_to_string;
use crate::ids::is_random_id;
use crate::ids::parse_id;
use crate::ids::parsed_id;
use crate::text::join;
use vstd::prelude::*;
use vstd::string::StringExecFns;

verus! {

/// `serde_json::Value`, any JSON value. It is carried through unread.
#[verifier::external_type_specification]
#[verifier::external_body]
pub struct ExJsonValue(serde_json::Value);

/// `Clone` for `serde_json::Value`, which the derived `Clone` of
/// [`ServiceConfig`] calls. The value is opaque, so nothing is stated of the
/// copy.
pub assume_specification[ <serde_json::Value as Clone>::clone ](
    value: &serde_json::Value,
) -> serde_json::Value;

/// The JSON value `null`, as `serde_json::Value::Null`. The value is opaque
/// to the verifier, so the contract says nothing of it.
#[verifier::external_body]
fn json_null() -> serde_json::Value {
    serde_json::Value::Null
}

/// Reads the system's host name with `hostname::get`, replacing bytes that
/// are not UTF-8 as `to_string_lossy` does. `None` where the system call
/// fails. The name belongs to the machine, so nothing is promised of it.
#[verifier::external_body]
fn local_hostname() -> Option<String> {
    hostname::get().ok().map(|h| h.to_string_lossy().to_string())
}

/// Reads the clock with `chrono::Utc::now` and returns the seconds and
/// nanoseconds since the Unix epoch. `Utc::now` builds its value from a
/// duration since the epoch, so the seconds are not negative and the
/// nanoseconds stay below one second; it panics where the clock stands before
/// the epoch.
#[verifier::external_body]
fn utc_now() -> (now: Timestamp)
    ensures
        now.secs >= 0,
        now.nanos < 1_000_000_000,
{
    let t = chrono::Utc::now();
    Timestamp { secs: t.timestamp(), nanos: t.timestamp_subsec_nanos() }
}

/// A point in time: seconds since the Unix epoch, and nanoseconds since the
/// last second boundary.
#[derive(Clone, Copy, Debug, PartialEq, Eq, Structural)]
pub struct Timestamp {
    pub secs: i64,
    pub nanos: u32,
}

impl Timestamp {
    /// Nanoseconds since the Unix epoch.
    pub open spec fn total_nanos(self) -> int {
        self.secs * 1_000_000_000 + self.nanos
    }

    /// The current time.
    pub fn now() -> (now: Timestamp)
        ensures
            now.secs >= 0,
            now.nanos < 1_000_000_000,
    {
        utc_now()
    }

    /// Nanoseconds from `earlier` to `self`; negative where `self` is the
    /// earlier of the two.
    pub fn nanos_since(&self, earlier: &Timestamp) -> (elapsed: i128)
        ensures
            elapsed == self.total_nanos() - earlier.total_nanos(),
    {
        let later: i128 = (self.secs as i128) * 1_000_000_000 + (self.nanos as i128);
        let sooner: i128 = (earlier.secs as i128) * 1_000_000_000 + (earlier.nanos as i128);
        later - sooner
    }
}

/// Service configuration
#[derive(Debug, Clone)]
pub struct ServiceConfig {
    /// Service name
    pub name: String,
    /// Service version
    pub version: String,
    /// HTTP/gRPC bind address
    pub bind_addr: String,
    /// NATS URL
    pub nats_url: String,
    /// Redis URL
    pub redis_url: Option<String>,
    /// PostgreSQL URL
    pub postgres_url: Option<String>,
    /// Consul address for service discovery
    pub consul_addr: Option<String>,
    /// OpenTelemetry OTLP endpoint
    pub otlp_endpoint: Option<String>,
    /// Log level (trace, debug, info, warn, error)
    pub log_level: String,
    /// Environment (dev, staging, prod)
    pub environment: String,
    /// Additional service-specific config
    pub extra: serde_json::Value,
}

impl Default for ServiceConfig {
    fn default() -> (config: Self)
        ensures
            config.name@ == "unnamed-service"@,
            config.version@ == "0.1.0"@,
            config.bind_addr@ == "0.0.0.0:50051"@,
            config.nats_url@ == "nats://localhost:4222"@,
            config.redis_url is None,
            config.postgres_url is None,
            config.consul_addr is None,
            config.otlp_endpoint is None,
            config.log_level@ == "info"@,
            config.environment@ == "dev"@,
    {
        ServiceConfig {
            name: String::from_str("unnamed-service"),
            version: String::from_str("0.1.0"),
            bind_addr: String::from_str("0.0.0.0:50051"),
            nats_url: String::from_str("nats://localhost:4222"),
            redis_url: None,
            postgres_url: None,
            consul_addr: None,
            otlp_endpoint: None,
            log_level: String::from_str("info"),
            environment: String::from_str("dev"),
            extra: json_null(),
        }
    }
}

/// Service information
#[derive(Debug, Clone)]
pub struct ServiceInfo {
    pub name: String,
    pub version: String,
    pub instance_id: u128,
    pub started_at: Timestamp,
    pub environment: String,
    pub hostname: String,
}

/// The text of an optional setting, or its default where it is not set.
pub open spec fn or_default(value: Option<String>, default: Seq<char>) -> Seq<char> {
    match value {
        Some(text) => text@,
        None => default,
    }
}

impl ServiceInfo {
    /// Puts a service's description together from what was read of its
    /// surroundings: the environment is `dev` and the host name `unknown`
    /// where none was found.
    pub fn assemble(
        name: &str,
        version: &str,
        instance_id: u128,
        started_at: Timestamp,
        environment: Option<String>,
        hostname: Option<String>,
    ) -> (info: ServiceInfo)
        ensures
            info.name@ == name@,
            info.version@ == version@,
            info.instance_id == instance_id,
            info.started_at == started_at,
            info.environment@ == or_default(environment, "dev"@),
            info.hostname@ == or_default(hostname, "unknown"@),
    {
        let environment = match environment {
            Some(text) => text,
            None => String::from_str("dev"),
        };
        let hostname = match hostname {
            Some(text) => text,
            None => String::from_str("unknown"),
        };
        ServiceInfo {
            name: String::from_str(name),
            version: String::from_str(version),
            instance_id,
            started_at,
            environment,
            hostname,
        }
    }

    /// Create new service info: a fresh instance identifier, the current time
    /// and this machine's host name. `environment` is the deployment
    /// environment that the process was started with, if any.
    pub fn new(name: &str, version: &str, environment: Option<String>) -> (info: ServiceInfo)
        ensures
            info.name@ == name@,
            info.version@ == version@,
            info.environment@ == or_default(environment, "dev"@),
            is_random_id(info.instance_id),
            info.started_at.secs >= 0,
            info.started_at.nanos < 1_000_000_000,
    {
        let hostname = local_hostname();
        let instance_id = fresh_id();
        let started_at = Timestamp::now();
        ServiceInfo::assemble(name, version, instance_id, started_at, environment, hostname)
    }

    /// Nanoseconds that the service has been up at the time `now`.
    pub fn uptime_at(&self, now: &Timestamp) -> (elapsed: i128)
        ensures
            elapsed == now.total_nanos() - self.started_at.total_nanos(),
    {
        now.nanos_since(&self.started_at)
    }

    /// Get service uptime, in nanoseconds.
    pub fn uptime(&self) -> (elapsed: i128)
        ensures
            elapsed >= -self.started_at.total_nanos(),
    {
        let now = Timestamp::now();
        self.uptime_at(&now)
    }
}

/// Call identifier
#[derive(Debug, Clone, PartialEq, Eq, Hash)]
pub struct CallId {
    /// Internal UUID
    pub id: u128,
    /// SIP Call-ID header
    pub sip_call_id: String,
    /// Correlation ID for distributed tracing
    pub correlation_id: String,
}

impl CallId {
    /// The call identifier built on `id`: the SIP Call-ID is the identifier's
    /// text followed by `@voip`, the correlation ID is the text itself.
    pub fn with_id(id: u128) -> (call: CallId)
        ensures
            call.id == id,
            call.sip_call_id@ == id_text(id) + "@voip"@,
            call.correlation_id@ == id_text(id),
    {
        let text = id_to_string(id);
        CallId { id, sip_call_id: join(text.as_str(), "@voip"), correlation_id: text }
    }

    /// The identifier `id` for a call that arrived with its own SIP Call-ID.
    pub fn with_id_from_sip(id: u128, sip_call_id: String) -> (call: CallId)
        ensures
            call.id == id,
            call.sip_call_id@ == sip_call_id@,
            call.correlation_id@ == id_text(id),
    {
        CallId { id, sip_call_id, correlation_id: id_to_string(id) }
    }

    /// Create new call ID
    pub fn new() -> (call: CallId)
        ensures
            is_random_id(call.id),
            call.sip_call_id@ == id_text(call.id) + "@voip"@,
            call.correlation_id@ == id_text(call.id),
    {
        CallId::with_id(fresh_id())
    }

    /// Create from SIP Call-ID
    pub fn from_sip(sip_call_id: String) -> (call: CallId)
        ensures
            is_random_id(call.id),
            call.sip_call_id@ == sip_call_id@,
            call.correlation_id@ == id_text(call.id),
    {
        CallId::with_id_from_sip(fresh_id(), sip_call_id)
    }

    /// The display text: the internal identifier, hyphenated.
    pub fn to_string(&self) -> (text: String)
        ensures
            text@ == id_text(self.id),
    {
        id_to_string(self.id)
    }
}

impl Default for CallId {
    fn default() -> (call: Self)
        ensures
            is_random_id(call.id),
            call.sip_call_id@ == id_text(call.id) + "@voip"@,
            call.correlation_id@ == id_text(call.id),
    {
        CallId::new()
    }
}

/// User identifier
#[derive(Debug, Clone, PartialEq, Eq, Hash)]
pub struct UserId(pub u128);

impl UserId {
    /// Create new user ID
    pub fn new() -> (user: UserId)
        ensures
            is_random_id(user.0),
    {
        UserId(fresh_id())
    }

    /// Parse from string
    pub fn parse(s: &str) -> (r: Result<UserId, VoipError>)
        ensures
            r is Ok <==> parsed_id(s@) is Some,
            r matches Ok(user) ==> parsed_id(s@) == Some(user.0),
            r matches Err(e) ==> e is Validation,
    {
        match parse_id(s) {
            Ok(id) => Ok(UserId(id)),
            Err(e) => Err(e),
        }
    }

    /// The display text: the identifier, hyphenated.
    pub fn to_string(&self) -> (text: String)
        ensures
            text@ == id_text(self.0),
            parsed_id(text@) == Some(self.0),
    {
        id_to_string(self.0)
    }
}

impl Default for UserId {
    fn default() -> (user: Self)
        ensures
            is_random_id(user.0),
    {
        UserId::new()
    }
}

/// Device identifier
#[derive(Debug, Clone, PartialEq, Eq, Hash)]
pub struct DeviceId(pub u128);

impl DeviceId {
    /// Create new device ID
    pub fn new() -> (device: DeviceId)
        ensures
            is_random_id(device.0),
    {
        DeviceId(fresh_id())
    }

    /// Parse from string
    pub fn parse(s: &str) -> (r: Result<DeviceId, VoipError>)
        ensures
            r is Ok <==> parsed_id(s@) is Some,
            r matches Ok(device) ==> parsed_id(s@) == Some(device.0),
            r matches Err(e) ==> e is Validation,
    {
        match parse_id(s) {
            Ok(id) => Ok(DeviceId(id)),
            Err(e) => Err(e),
        }
    }

    /// The display text: the identifier, hyphenated.
    pub fn to_string(&self) -> (text: String)
        ensures
            text@ == id_text(self.0),
            parsed_id(text@) == Some(self.0),
    {
        id_to_string(self.0)
    }
}

impl Default for DeviceId {
    fn default() -> (device: Self)
        ensures
            is_random_id(device.0),
    {
        DeviceId::new()
    }
}

/// Pagination parameters
#[derive(Debug, Clone)]
pub struct PageRequest {
    pub page: u32,
    pub page_size: u32,
    pub sort_by: Option<String>,
    pub descending: bool,
}

impl Default for PageRequest {
    fn default() -> (request: Self)
        ensures
            request.page == 1,
            request.page_size == 20,
            request.sort_by is None,
            !request.descending,
    {
        PageRequest { page: 1, page_size: 20, sort_by: None, descending: false }
    }
}

impl PageRequest {
    /// The number of items that stand before the requested page: pages count
    /// from 1, and page 0 is read as page 1.
    pub open spec fn offset_spec(self) -> int {
        if self.page == 0 {
            0
        } else {
            (self.page - 1) * self.page_size
        }
    }

    /// Calculate offset for database queries
    pub fn offset(&self) -> (offset: u32)
        requires
            self.offset_spec() <= u32::MAX,
        ensures
            offset == self.offset_spec(),
    {
        let before: u32 = self.page.saturating_sub(1);
        assert(before * self.page_size == self.offset_spec()) by (nonlinear_arith)
            requires
                before == if self.page == 0 {
                    0
                } else {
                    self.page - 1
                },
                self.offset_spec() == if self.page == 0 {
                    0
                } else {
                    (self.page - 1) * self.page_size
                },
        ;
        before * self.page_size
    }

    /// The offset for database queries, or `None` where it does not fit in
    /// 32 bits.
    pub fn checked_offset(&self) -> (offset: Option<u32>)
        ensures
            offset is Some <==> self.offset_spec() <= u32::MAX,
            offset matches Some(n) ==> n == self.offset_spec(),
    {
        let before: u64 = self.page.saturating_sub(1) as u64;
        let size: u64 = self.page_size as u64;
        assert(before * size <= 0xffff_ffff * 0xffff_ffff) by (nonlinear_arith)
            requires
                before <= 0xffff_ffff,
                size <= 0xffff_ffff,
        ;
        let wide: u64 = before * size;
        assert(wide == self.offset_spec()) by (nonlinear_arith)
            requires
                wide == before * size,
                size == self.page_size,
                before == if self.page == 0 {
                    0
                } else {
                    self.page - 1
                },
                self.offset_spec() == if self.page == 0 {
                    0
                } else {
                    (self.page - 1) * self.page_size
                },
        ;
        if wide <= 0xffff_ffff {
            Some(self.offset())
        } else {
            None
        }
    }

    /// Calculate limit for database queries
    pub fn limit(&self) -> (limit: u32)
        ensures
            limit == self.page_size,
    {
        self.page_size
    }
}

/// Pagination response metadata
#[derive(Debug, Clone)]
pub struct PageInfo {
    pub page: u32,
    pub page_size: u32,
    pub total_pages: u32,
    pub total_items: u64,
    pub has_next: bool,
    pub has_previous: bool,
}

/// The number of pages that hold `total_items` items, `page_size` to a page,
/// before it is cut to 32 bits: the quotient rounded up.
pub open spec fn pages_needed(total_items: int, page_size: int) -> int
    recommends
        page_size > 0,
        total_items >= 0,
{
    total_items / page_size + if total_items % page_size == 0 {
        0int
    } else {
        1int
    }
}

/// The page count of a listing. It saturates at the largest 32-bit number.
/// With a page size of zero no count exists: an empty listing has no pages and
/// any other listing has the largest count.
pub open spec fn total_pages_spec(total_items: u64, page_size: u32) -> u32 {
    if page_size == 0 {
        if total_items == 0 {
            0
        } else {
            u32::MAX
        }
    } else if pages_needed(total_items as int, page_size as int) > u32::MAX {
        u32::MAX
    } else {
        pages_needed(total_items as int, page_size as int) as u32
    }
}

/// Whether `pages` pages of `page_size` items have room for `total_items` items.
pub open spec fn has_room(pages: int, page_size: int, total_items: int) -> bool {
    pages * page_size >= total_items
}

/// `pages_needed` is the ceiling of the quotient: the least number of pages
/// that have room for all the items.
pub proof fn lemma_pages_needed_is_ceiling(total_items: int, page_size: int)
    requires
        total_items >= 0,
        page_size > 0,
    ensures
        pages_needed(total_items, page_size) >= 0,
        has_room(pages_needed(total_items, page_size), page_size, total_items),
        forall|n: int| #[trigger]
            has_room(n, page_size, total_items) ==> n >= pages_needed(total_items, page_size),
{
    let q = total_items / page_size;
    let r = total_items % page_size;
    assert(total_items == q * page_size + r && 0 <= r < page_size && q >= 0) by (nonlinear_arith)
        requires
            total_items >= 0,
            page_size > 0,
            q == total_items / page_size,
            r == total_items % page_size,
    ;
    let p = pages_needed(total_items, page_size);
    assert(p * page_size >= total_items) by (nonlinear_arith)
        requires
            total_items == q * page_size + r,
            0 <= r < page_size,
            p == q + if r == 0 {
                0int
            } else {
                1int
            },
    ;
    assert forall|n: int| #[trigger] has_room(n, page_size, total_items) implies n >= p by {
        assert(n >= p) by (nonlinear_arith)
            requires
                n * page_size >= total_items,
                total_items == q * page_size + r,
                0 <= r < page_size,
                page_size > 0,
                p == q + if r == 0 {
                    0int
                } else {
                    1int
                },
        ;
    }
}

impl PageInfo {
    /// Create page info from request and total count
    pub fn new(request: &PageRequest, total_items: u64) -> (info: PageInfo)
        ensures
            info.page == request.page,
            info.page_size == request.page_size,
            info.total_items == total_items,
            info.total_pages == total_pages_spec(total_items, request.page_size),
            info.has_next == (request.page < info.total_pages),
            info.has_previous == (request.page > 1),
    {
        let total_pages: u32 = if request.page_size == 0 {
            if total_items == 0 {
                0
            } else {
                u32::MAX
            }
        } else {
            let size: u64 = request.page_size as u64;
            let full: u64 = total_items / size;
            let rest: u64 = total_items % size;
            if full >= 0xffff_ffff {
                u32::MAX
            } else if rest == 0 {
                full as u32
            } else {
                (full + 1) as u32
            }
        };
        PageInfo {
            page: request.page,
            page_size: request.page_size,
            total_pages,
            total_items,
            has_next: request.page < total_pages,
            has_previous: request.page > 1,
        }
    }
}

/// Health status
#[derive(Debug, Clone, Copy, PartialEq, Eq, Structural)]
pub enum HealthStatus {
    Healthy,
    Degraded,
    Unhealthy,
    Critical,
}

impl HealthStatus {
    /// The lowercase name of the status.
    pub open spec fn name(self) -> Seq<char> {
        match self {
            HealthStatus::Healthy => "healthy"@,
            HealthStatus::Degraded => "degraded"@,
            HealthStatus::Unhealthy => "unhealthy"@,
            HealthStatus::Critical => "critical"@,
        }
    }

    /// The display text: the lowercase name of the status.
    pub fn to_string(&self) -> (text: String)
        ensures
            text@ == self.name(),
    {
        match self {
            HealthStatus::Healthy => String::from_str("healthy"),
            HealthStatus::Degraded => String::from_str("degraded"),
            HealthStatus::Unhealthy => String::from_str("unhealthy"),
            HealthStatus::Critical => String::from_str("critical"),
        }
    }
}

} // verus!
