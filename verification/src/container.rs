use vstd::prelude::*;

use crate::lifecycle::TeardownAction;
use crate::lifecycle::teardown_action;
use crate::ports::Ports;

verus! {

/// A runtime client capability: starting, stopping, removing and inspecting
/// disposable instances known to the runtime by an opaque id. Many container
/// handles may borrow one client at the same time; the client tracks all
/// runtime state itself.
pub trait Docker: Sized {
    /// The log stream handle this client hands out for an instance.
    type LogStream;

    /// The port mapping table this client currently reports for an instance.
    spec fn spec_ports(&self, id: Seq<char>) -> Map<u16, u16>;

    /// The log streams this client hands out for an instance.
    spec fn spec_logs(&self, id: Seq<char>) -> Self::LogStream;

    /// Asks the runtime to transition the instance to running.
    fn start(&self, id: &String);

    /// Asks the runtime to transition the instance to stopped, keeping its
    /// resources. Safe to call on an already stopped instance.
    fn stop(&self, id: &String)
        opens_invariants none
        no_unwind when true
    ;

    /// Asks the runtime to delete the instance and its resources,
    /// stopping it first if it still runs. Terminal for the id.
    fn rm(&self, id: &String)
        opens_invariants none
        no_unwind when true
    ;

    /// The instance's current port mappings.
    fn ports(&self, id: &String) -> (ports: Ports)
        ensures
            ports@ == self.spec_ports(id@),
    ;

    /// The instance's log streams.
    fn logs(&self, id: &String) -> (logs: Self::LogStream)
        ensures
            logs == self.spec_logs(id@),
    ;
}

/// The process-wide teardown policy setting, read fresh at every teardown:
/// `Some(flag)` when the configuration value is present and parses as a
/// boolean, `None` when it is absent or unparsable. Nothing is promised of
/// the value read — it may change between reads.
pub trait TeardownPolicy {
    /// Reads the current value of the keep-containers setting.
    fn keep_containers(&self) -> Option<bool>
        opens_invariants none
        no_unwind when true
    ;
}

/// The error construction reports when the readiness predicate signals
/// failure instead of blocking further: no container handle is produced and
/// no teardown is triggered for the instance.
#[derive(Debug)]
pub struct ReadinessFailure {
    message: String,
}

impl ReadinessFailure {
    /// What the readiness predicate reported, as text.
    pub closed spec fn spec_message(&self) -> Seq<char> {
        self.message@
    }

    /// A readiness failure carrying the predicate's report.
    pub fn new(message: String) -> (failure: ReadinessFailure)
        ensures
            failure.spec_message() == message@,
    {
        ReadinessFailure { message }
    }

    /// The predicate's report, for diagnostics.
    pub fn message(&self) -> (text: &str)
        ensures
            text@ == self.spec_message(),
    {
        self.message.as_str()
    }
}

/// An image definition capability: describes one service variant and knows
/// how to judge when an instance of it has become usable.
pub trait Image: Sized {
    /// The image's own judgment that its service has become usable.
    spec fn ready(&self) -> bool;

    /// Blocks the calling thread until the instance is usable, judging
    /// through the handle's own accessors (ports, logs, image
    /// configuration); reports failure instead of blocking forever when the
    /// service cannot become usable. There is no timeout at this layer.
    fn wait_until_ready<'d, D: Docker, P: TeardownPolicy>(
        &self,
        container: &Container<'d, D, Self, P>,
    ) -> (outcome: Result<(), ReadinessFailure>)
        ensures
            outcome is Ok ==> self.ready(),
    ;
}

/// One lifecycle-managed handle to a running, disposable instance: it binds
/// a runtime client reference, an owned image definition and the assigned
/// instance id, is only obtainable once the image's readiness predicate has
/// passed, and tears the instance down exactly once when its owning scope
/// ends — stop-only or stop-and-remove, decided by the policy flag read at
/// that moment.
pub struct Container<'d, D: Docker, I: Image, P: TeardownPolicy> {
    id: String,
    docker_client: &'d D,
    image: I,
    policy: &'d P,
    ready: bool,
}

impl<'d, D: Docker, I: Image, P: TeardownPolicy> Container<'d, D, I, P> {
    /// The instance id this handle was constructed over; stable for the
    /// handle's whole life.
    pub closed spec fn spec_id(&self) -> Seq<char> {
        self.id@
    }

    /// The runtime client this handle issues its calls through.
    pub closed spec fn spec_client(&self) -> D {
        *self.docker_client
    }

    /// The image definition this handle owns.
    pub closed spec fn spec_image(&self) -> I {
        self.image
    }

    /// A handle is ready once its readiness gate has passed; every handle
    /// construction yields to a caller is ready, and only ready handles
    /// issue scope-end teardown calls.
    pub closed spec fn is_ready(&self) -> bool {
        self.ready && self.image.ready()
    }

    /// Constructs the handle over a previously created instance, then blocks
    /// the calling thread on the image's readiness predicate. The handle is
    /// yielded only after the predicate passes, so callers never observe a
    /// not-yet-ready container. If the predicate reports failure instead, the
    /// failure is surfaced, no handle is produced and no teardown is
    /// triggered — the instance is left to the runtime as it was.
    pub fn new(id: String, docker_client: &'d D, image: I, policy: &'d P) -> (outcome: Result<
        Self,
        ReadinessFailure,
    >)
        ensures
            outcome matches Ok(container) ==> container.is_ready() && container.spec_id() == id@
                && container.spec_image() == image && container.spec_client() == *docker_client,
    {
        let mut container = Container { id, docker_client, image, policy, ready: false };
        match container.block_until_ready() {
            Ok(()) => {
                container.ready = true;
                Ok(container)
            },
            Err(failure) => Err(failure),
        }
    }

    /// The id of this container.
    pub fn id(&self) -> (id: &str)
        ensures
            id@ == self.spec_id(),
    {
        self.id.as_str()
    }

    /// Gives access to the log streams of this container: a pass-through to
    /// the client's log fetch for this instance id, with no buffering or
    /// transformation added.
    pub fn logs(&self) -> (logs: D::LogStream)
        ensures
            logs == self.spec_client().spec_logs(self.spec_id()),
    {
        self.docker_client.logs(&self.id)
    }

    /// Resolves the mapped host port for an internal port of this container:
    /// `Some(host_port)` exactly when the client's current mapping table
    /// declares an exposure of `internal_port`, `None` otherwise. This never
    /// causes a port to become exposed — it is read-only resolution over the
    /// already declared exposure.
    pub fn get_host_port(&self, internal_port: u16) -> (resolved: Option<u16>)
        ensures
            resolved == (if self.spec_client().spec_ports(self.spec_id()).contains_key(
                internal_port,
            ) {
                Some(self.spec_client().spec_ports(self.spec_id())[internal_port])
            } else {
                None::<u16>
            }),
    {
        let ports = self.docker_client.ports(&self.id);
        ports.map_to_host_port(internal_port)
    }

    /// A read-only reference to the image definition this container owns,
    /// for image-specific configuration such as credentials or declared
    /// ports.
    pub fn image(&self) -> (image: &I)
        ensures
            *image == self.spec_image(),
    {
        &self.image
    }

    fn block_until_ready(&self) -> (outcome: Result<(), ReadinessFailure>)
        ensures
            outcome is Ok ==> self.spec_image().ready(),
    {
        self.image.wait_until_ready(self)
    }

    /// Asks the client to transition this instance to running. No readiness
    /// re-check is performed: a caller restarting a stopped instance
    /// re-establishes readiness itself if it needs it.
    pub fn start(&self) {
        self.docker_client.start(&self.id);
    }

    /// Asks the client to transition this instance to stopped, keeping its
    /// resources; safe to call more than once.
    pub fn stop(&self)
        opens_invariants none
        no_unwind
    {
        self.docker_client.stop(&self.id);
    }

    /// Asks the client to irreversibly delete this instance and its
    /// resources.
    pub fn rm(&self)
        opens_invariants none
        no_unwind
    {
        self.docker_client.rm(&self.id);
    }
}

impl<'d, D: Docker, I: Image, P: TeardownPolicy> Drop for Container<'d, D, I, P> {
    /// Scope-end teardown, run exactly once per handle, on normal exit and
    /// on unwind alike: reads the policy flag fresh, then either stops the
    /// instance and keeps it (present truthy flag) or stops and removes it
    /// (any other flag). A value whose readiness gate never passed issues no
    /// call — no handle over it ever reached a caller.
    fn drop(&mut self)
        opens_invariants none
        no_unwind
    {
        if self.ready {
            match teardown_action(self.policy.keep_containers()) {
                TeardownAction::StopOnly => self.stop(),
                TeardownAction::StopAndRemove => {
                    self.stop();
                    self.rm();
                },
            }
        }
    }
}

} // verus!
