use vstd::prelude::*;

verus! {

/// The mapping table a pair list denotes: each pair binds its internal port
/// to its host port, and a later pair shadows an earlier one with the same
/// internal port.
pub open spec fn map_of_pairs(pairs: Seq<(u16, u16)>) -> Map<u16, u16>
    decreases pairs.len(),
{
    if pairs.len() == 0 {
        Map::<u16, u16>::empty()
    } else {
        map_of_pairs(pairs.drop_last()).insert(pairs.last().0, pairs.last().1)
    }
}

/// The diagnostic observation one port resolution yields, so an operator can
/// tell a port that resolved (informational) from one the image never
/// exposed (a warning). Emitting it alters no state.
#[derive(Clone, Copy, PartialEq, Eq, Structural, Debug)]
pub enum ResolutionDiagnostic {
    Resolved { internal_port: u16, host_port: u16 },
    Unresolved { internal_port: u16 },
}

/// The diagnostic observation for one resolution outcome: `Resolved` exactly
/// when a host port was found, `Unresolved` otherwise.
pub fn resolution_diagnostic(internal_port: u16, resolved: Option<u16>) -> (diagnostic:
    ResolutionDiagnostic)
    ensures
        diagnostic == (match resolved {
            Some(host_port) => (ResolutionDiagnostic::Resolved { internal_port, host_port }),
            None => (ResolutionDiagnostic::Unresolved { internal_port }),
        }),
{
    match resolved {
        Some(host_port) => ResolutionDiagnostic::Resolved { internal_port, host_port },
        None => ResolutionDiagnostic::Unresolved { internal_port },
    }
}

impl ResolutionDiagnostic {
    /// An unresolved port deserves a warning; a resolved one is merely
    /// informational.
    pub fn is_warning(&self) -> (warning: bool)
        ensures
            warning == (self is Unresolved),
    {
        match self {
            ResolutionDiagnostic::Resolved { .. } => false,
            ResolutionDiagnostic::Unresolved { .. } => true,
        }
    }
}

/// The port mappings the runtime client reports for one instance: pairs of
/// an internally declared port and the host port it is published on.
pub struct Ports {
    mappings: Vec<(u16, u16)>,
}

impl View for Ports {
    type V = Map<u16, u16>;

    closed spec fn view(&self) -> Map<u16, u16> {
        map_of_pairs(self.mappings@)
    }
}

impl Ports {
    /// An empty mapping table: no internal port is exposed.
    pub fn new() -> (ports: Ports)
        ensures
            ports@ == Map::<u16, u16>::empty(),
    {
        Ports { mappings: Vec::new() }
    }

    /// Records that `internal_port` is published on `host_port`, shadowing
    /// any earlier mapping of the same internal port.
    pub fn add_mapping(&mut self, internal_port: u16, host_port: u16)
        ensures
            final(self)@ == old(self)@.insert(internal_port, host_port),
    {
        self.mappings.push((internal_port, host_port));
        proof {
            assert(self.mappings@.drop_last() =~= old(self).mappings@);
        }
    }

    /// Resolves an internal port against this table: `Some(host_port)` when
    /// the table declares an exposure of `internal_port`, `None` otherwise.
    pub fn map_to_host_port(&self, internal_port: u16) -> (resolved: Option<u16>)
        ensures
            resolved == (if self@.contains_key(internal_port) {
                Some(self@[internal_port])
            } else {
                None::<u16>
            }),
    {
        let mut i: usize = self.mappings.len();
        proof {
            assert(self.mappings@.take(i as int) =~= self.mappings@);
        }
        while i > 0
            invariant
                i <= self.mappings@.len(),
                map_of_pairs(self.mappings@.take(i as int)).contains_key(internal_port)
                    <==> self@.contains_key(internal_port),
                self@.contains_key(internal_port) ==> map_of_pairs(
                    self.mappings@.take(i as int),
                )[internal_port] == self@[internal_port],
            decreases i,
        {
            i = i - 1;
            proof {
                assert(self.mappings@.take(i + 1 as int).drop_last() =~= self.mappings@.take(
                    i as int,
                ));
                assert(self.mappings@.take(i + 1 as int).last() == self.mappings@[i as int]);
            }
            let (internal, host) = self.mappings[i];
            if internal == internal_port {
                return Some(host);
            }
        }
        proof {
            assert(self.mappings@.take(0) =~= Seq::<(u16, u16)>::empty());
        }
        None
    }
}

} // verus!
