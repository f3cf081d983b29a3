//! The decisions of the command line tool: which environment the
//! development server and the application get, how `cargo` is run, which
//! services a command acts on, and how the service status table reads.

use vstd::prelude::*;
use crate::services::{ServiceName, binary_name_of, display_name_of, name_index};
use crate::text::{decimal, push_decimal, decimal_string, joined, views, join};

verus! {

/// The text of a list of environment variables.
pub open spec fn env_text(v: Seq<(&'static str, String)>) -> Seq<(Seq<char>, Seq<char>)> {
    v.map_values(|p: (&'static str, String)| (p.0@, p.1@))
}

/// The variable naming the enabled services, when a list is given.
pub open spec fn services_env(services: Option<Vec<String>>) -> Seq<(Seq<char>, Seq<char>)> {
    match services {
        Some(s) => seq![("ACTON_ENABLED_SERVICES"@, joined(views(s@), ","@))],
        None => seq![],
    }
}

/// `all`, or the given services separated by `, `.
pub open spec fn services_summary_text(services: Option<Vec<String>>) -> Seq<char> {
    match services {
        Some(s) => joined(views(s@), ", "@),
        None => "all"@,
    }
}

/// Pushes `(name, value)` onto an environment list.
fn push_var(v: &mut Vec<(&'static str, String)>, name: &'static str, value: String)
    ensures
        env_text(final(v)@) == env_text(old(v)@).push((name@, value@)),
{
    v.push((name, value));
    assert(env_text(final(v)@) =~= env_text(old(v)@).push((name@, value@)));
}

/// Appends the enabled services variable, when a list is given.
fn push_services(v: &mut Vec<(&'static str, String)>, services: &Option<Vec<String>>)
    ensures
        env_text(final(v)@) == env_text(old(v)@) + services_env(*services),
{
    match services {
        Some(s) => {
            let joined_names = join(s, ",");
            push_var(v, "ACTON_ENABLED_SERVICES", joined_names);
        },
        None => {
            assert(env_text(v@) =~= env_text(v@) + services_env(*services));
        },
    }
}

/// `all` when no service list is given, else the services separated by `, `.
pub fn services_summary(services: &Option<Vec<String>>) -> (s: String)
    ensures
        s@ == services_summary_text(*services),
{
    match services {
        Some(v) => join(v, ", "),
        None => String::from_str("all"),
    }
}

/// Development server options.
#[derive(Debug, Clone)]
pub struct DevOptions {
    /// Run with embedded services (single process mode).
    pub embedded_services: bool,
    /// Services to enable (`None` means all services).
    pub services: Option<Vec<String>>,
    /// Base port for services.
    pub services_port: u16,
    /// Application port.
    pub app_port: u16,
    /// Host to bind to.
    pub host: String,
}

impl DevOptions {
    /// External services, all of them, base port 50051, app port 3000, `127.0.0.1`.
    pub fn default() -> (o: DevOptions)
        ensures
            !o.embedded_services,
            o.services.is_none(),
            o.services_port == 50051,
            o.app_port == 3000,
            o.host@ == "127.0.0.1"@,
    {
        DevOptions {
            embedded_services: false,
            services: None,
            services_port: 50051,
            app_port: 3000,
            host: String::from_str("127.0.0.1"),
        }
    }
}

/// The environment of the development server: the application port and
/// host, whether services are embedded (with their base port when they
/// are), and the enabled services when a list is given.
pub open spec fn dev_env(o: DevOptions) -> Seq<(Seq<char>, Seq<char>)> {
    seq![("ACTON_APP_PORT"@, decimal(o.app_port as nat)), ("ACTON_APP_HOST"@, o.host@)]
        + (if o.embedded_services {
            seq![("ACTON_EMBEDDED_SERVICES"@, "true"@), ("ACTON_SERVICES_BASE_PORT"@, decimal(o.services_port as nat))]
        } else {
            seq![("ACTON_EMBEDDED_SERVICES"@, "false"@)]
        })
        + services_env(o.services)
}

/// Start development server with hot reload.
#[derive(Debug, Clone, Copy)]
pub struct DevCommand;

impl DevCommand {
    /// Create a new command instance.
    pub fn new() -> (c: DevCommand)
        ensures
            c == DevCommand,
    {
        DevCommand
    }

    /// Create a new command instance.
    pub fn default() -> (c: DevCommand)
        ensures
            c == DevCommand,
    {
        DevCommand
    }

    /// The environment variables for the development server.
    pub fn build_env_vars(options: &DevOptions) -> (v: Vec<(&'static str, String)>)
        ensures
            env_text(v@) == dev_env(*options),
    {
        let mut v: Vec<(&'static str, String)> = Vec::new();
        push_var(&mut v, "ACTON_APP_PORT", decimal_string(options.app_port as u64));
        push_var(&mut v, "ACTON_APP_HOST", options.host.clone());
        if options.embedded_services {
            push_var(&mut v, "ACTON_EMBEDDED_SERVICES", String::from_str("true"));
            push_var(&mut v, "ACTON_SERVICES_BASE_PORT", decimal_string(options.services_port as u64));
        } else {
            push_var(&mut v, "ACTON_EMBEDDED_SERVICES", String::from_str("false"));
        }
        push_services(&mut v, &options.services);
        assert(env_text(v@) =~= dev_env(*options));
        v
    }

    /// Whether some of the external services is not running (the services
    /// are then listed with the hint to start them).
    pub fn any_service_missing(running: &Vec<bool>) -> (r: bool)
        ensures
            r == exists|i: int| 0 <= i < running@.len() && !running@[i],
    {
        let mut i: usize = 0;
        while i < running.len()
            invariant
                i <= running@.len(),
                forall|k: int| 0 <= k < i ==> running@[k],
            decreases running@.len() - i,
        {
            if !running[i] {
                return true;
            }
            i = i + 1;
        }
        false
    }

    /// The program that runs the development server: `bacon` (with hot
    /// reload) when it is installed, else `cargo`; either is given `run`.
    pub fn server_program(bacon_installed: bool) -> (p: &'static str)
        ensures
            p@ == (if bacon_installed { "bacon"@ } else { "cargo"@ }),
    {
        if bacon_installed {
            "bacon"
        } else {
            "cargo"
        }
    }
}

/// Serve command for running the application.
#[derive(Debug, Clone)]
pub enum ServeCommand {
    /// Start the application server.
    Start {
        /// Project directory.
        path: String,
        /// Run with embedded services (single binary, no external services).
        embedded_services: bool,
        /// Base port for embedded services.
        services_port: u16,
        /// Application port.
        port: u16,
        /// Host to bind to.
        host: String,
        /// Run in release mode.
        release: bool,
        /// Enable specific services only.
        services: Option<Vec<String>>,
    },
}

/// The environment of the application: with embedded services, their
/// base port and the enabled services; without, only the application port
/// and host.
pub open spec fn serve_env(c: ServeCommand) -> Seq<(Seq<char>, Seq<char>)> {
    match c {
        ServeCommand::Start { embedded_services, services_port, port, host, services, .. } => {
            if embedded_services {
                seq![
                    ("ACTON_EMBEDDED_SERVICES"@, "true"@),
                    ("ACTON_SERVICES_BASE_PORT"@, decimal(services_port as nat)),
                    ("ACTON_APP_PORT"@, decimal(port as nat)),
                    ("ACTON_APP_HOST"@, host@),
                ] + services_env(services)
            } else {
                seq![
                    ("ACTON_EMBEDDED_SERVICES"@, "false"@),
                    ("ACTON_APP_PORT"@, decimal(port as nat)),
                    ("ACTON_APP_HOST"@, host@),
                ]
            }
        },
    }
}

impl ServeCommand {
    /// The environment variables the application runs with.
    pub fn env_vars(&self) -> (v: Vec<(&'static str, String)>)
        ensures
            env_text(v@) == serve_env(*self),
    {
        match self {
            ServeCommand::Start { embedded_services, services_port, port, host, services, .. } => {
                let mut v: Vec<(&'static str, String)> = Vec::new();
                if *embedded_services {
                    push_var(&mut v, "ACTON_EMBEDDED_SERVICES", String::from_str("true"));
                    push_var(&mut v, "ACTON_SERVICES_BASE_PORT", decimal_string(*services_port as u64));
                    push_var(&mut v, "ACTON_APP_PORT", decimal_string(*port as u64));
                    push_var(&mut v, "ACTON_APP_HOST", host.clone());
                    push_services(&mut v, services);
                } else {
                    push_var(&mut v, "ACTON_EMBEDDED_SERVICES", String::from_str("false"));
                    push_var(&mut v, "ACTON_APP_PORT", decimal_string(*port as u64));
                    push_var(&mut v, "ACTON_APP_HOST", host.clone());
                }
                assert(env_text(v@) =~= serve_env(*self));
                v
            },
        }
    }

    /// The arguments given to `cargo`: `run`, and `--release` in release mode.
    pub fn cargo_args(&self) -> (v: Vec<&'static str>)
        ensures
            v@.len() == (if self->release { 2int } else { 1int }),
            v@[0]@ == "run"@,
            self->release ==> v@[1]@ == "--release"@,
    {
        let mut v: Vec<&'static str> = Vec::new();
        v.push("run");
        match self {
            ServeCommand::Start { release, .. } => {
                if *release {
                    v.push("--release");
                }
            },
        }
        v
    }
}

/// Services management commands.
#[derive(Debug, Clone)]
pub enum ServicesCommand {
    /// Start one or more microservices.
    Start {
        /// Services to start.
        services: Vec<ServiceName>,
        /// Build services before starting.
        build: bool,
        /// Run in foreground (don't daemonize).
        foreground: bool,
    },
    /// Stop one or more microservices.
    Stop {
        /// Services to stop.
        services: Vec<ServiceName>,
        /// Stop all running services.
        all: bool,
    },
    /// Show status of all microservices.
    Status,
    /// View service logs.
    Logs {
        /// Service to view logs for.
        service: ServiceName,
        /// Follow log output.
        follow: bool,
        /// Number of lines to show.
        lines: usize,
    },
    /// Restart one or more services.
    Restart {
        /// Services to restart.
        services: Vec<ServiceName>,
    },
}

/// One row of the service status table.
#[derive(Debug, Clone)]
pub struct StatusRow {
    /// Display name of the service.
    pub name: &'static str,
    /// `Running` or `Stopped`.
    pub status: &'static str,
    /// Default port of the service.
    pub port: u16,
    /// Process id, `?` when running with an unknown one, `-` when stopped.
    pub pid: String,
}

impl ServicesCommand {
    /// The services a stop command acts on: all of them with `--all`,
    /// else the listed ones, of which there must be at least one.
    pub fn services_to_stop(services: &Vec<ServiceName>, all: bool) -> (r: Result<Vec<ServiceName>, String>)
        ensures
            all ==> (r matches Ok(v) && v@ == seq![ServiceName::Auth, ServiceName::Data, ServiceName::Cedar,
                ServiceName::Cache, ServiceName::Email, ServiceName::File]),
            !all && services@.len() == 0 ==> (r matches Err(m) && m@ == "Specify services to stop or use --all"@),
            !all && services@.len() > 0 ==> (r matches Ok(v) && v@ == services@),
    {
        if all {
            Ok(ServiceName::all())
        } else if services.len() == 0 {
            Err(String::from_str("Specify services to stop or use --all"))
        } else {
            Ok(services.clone())
        }
    }

    /// Whether a start command runs its service in the foreground: only
    /// when asked to and when it starts exactly one service.
    pub fn runs_in_foreground(foreground: bool, count: usize) -> (r: bool)
        ensures
            r == (foreground && count == 1),
    {
        foreground && count == 1
    }

    /// Whether a start command shows the status table afterwards: unless it
    /// ran one service in the foreground.
    pub fn shows_status_after_start(foreground: bool, count: usize) -> (r: bool)
        ensures
            r == (!foreground || count > 1),
    {
        !foreground || count > 1
    }

    /// The arguments of `cargo` that build a service: `build --release -p <binary>`.
    pub fn build_args(service: ServiceName) -> (v: Vec<&'static str>)
        ensures
            v@.len() == 4,
            v@[0]@ == "build"@,
            v@[1]@ == "--release"@,
            v@[2]@ == "-p"@,
            v@[3]@ == binary_name_of(service),
    {
        let mut v: Vec<&'static str> = Vec::new();
        v.push("build");
        v.push("--release");
        v.push("-p");
        v.push(service.binary_name());
        v
    }

    /// Where a service binary is looked for, in order, before the `PATH`:
    /// the release build, then the debug build.
    pub fn binary_candidates(name: &str) -> (r: (String, String))
        ensures
            r.0@ == "target/release/"@ + name@,
            r.1@ == "target/debug/"@ + name@,
    {
        let mut release = String::from_str("target/release/");
        release.append(name);
        let mut debug = String::from_str("target/debug/");
        debug.append(name);
        (release, debug)
    }

    /// The error for a service binary found nowhere.
    pub fn binary_not_found(name: &str) -> (s: String)
        ensures
            s@ == "Service binary '"@ + name@ + "' not found. Run with --build to compile first."@,
    {
        let mut s = String::from_str("Service binary '");
        s.append(name);
        s.append("' not found. Run with --build to compile first.");
        s
    }

    /// The name of a service's log file: `<binary>.log`.
    pub fn log_file_name(service: ServiceName) -> (s: String)
        ensures
            s@ == binary_name_of(service) + ".log"@,
    {
        let mut s = String::from_str(service.binary_name());
        s.append(".log");
        s
    }

    /// The name of a service's PID file: `acton-dx-<binary>.pid`.
    pub fn pid_file_name(service: ServiceName) -> (s: String)
        ensures
            s@ == "acton-dx-"@ + binary_name_of(service) + ".pid"@,
    {
        let mut s = String::from_str("acton-dx-");
        s.append(service.binary_name());
        s.append(".pid");
        s
    }

    /// Index of the first of the last `lines` lines of a log of `total` lines.
    pub fn tail_start(total: usize, lines: usize) -> (i: usize)
        ensures
            i == (if total > lines { total - lines } else { 0 }),
    {
        total.saturating_sub(lines)
    }

    /// The status table row of a service.
    pub fn status_row(service: ServiceName, running: bool, pid: Option<u32>) -> (r: StatusRow)
        ensures
            r.name@ == display_name_of(service),
            r.status@ == (if running { "Running"@ } else { "Stopped"@ }),
            r.port == 50051 + name_index(service),
            r.pid@ == (if !running { "-"@ } else {
                match pid {
                    Some(p) => decimal(p as nat),
                    None => "?"@,
                }
            }),
    {
        let pid_text = if running {
            match pid {
                Some(p) => decimal_string(p as u64),
                None => String::from_str("?"),
            }
        } else {
            String::from_str("-")
        };
        StatusRow {
            name: service.display_name(),
            status: if running { "Running" } else { "Stopped" },
            port: service.default_port(),
            pid: pid_text,
        }
    }

    /// The note for a service whose port is in use by a process that the
    /// tool does not track.
    pub fn untracked_port_note(service: ServiceName) -> (s: String)
        ensures
            s@ == "Port "@ + decimal(50051 + name_index(service)) + " is in use but "@
                + display_name_of(service) + " is not tracked (external process?)"@,
    {
        let mut s = String::from_str("Port ");
        push_decimal(&mut s, service.default_port() as u64);
        s.append(" is in use but ");
        s.append(service.display_name());
        s.append(" is not tracked (external process?)");
        s
    }
}

} // verus!
