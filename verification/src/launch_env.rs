//! The launch-time host binding for the relaunched server.
//!
//! At container launch a companion helper announces one environment
//! binding: the address the server should bind. It is derived from an
//! externally supplied port, defaulting to all interfaces with no specific
//! port when none is supplied.
use vstd::prelude::*;

verus! {

/// The bind-all-interfaces address `0.0.0.0`.
pub open spec fn all_interfaces() -> Seq<u8> {
    seq![48u8, 46u8, 48u8, 46u8, 48u8, 46u8, 48u8]
}

/// The host binding: `0.0.0.0:<port>` when a port is supplied, bare
/// `0.0.0.0` otherwise.
pub open spec fn host_binding_spec(port: Option<Seq<u8>>) -> Seq<u8> {
    match port {
        Some(p) => all_interfaces() + seq![58u8] + p,
        None => all_interfaces(),
    }
}

/// Builds the host binding the helper announces for the supervisor to
/// inject into the relaunched server's environment.
pub fn ollama_host_binding(port: Option<&Vec<u8>>) -> (r: Vec<u8>)
    ensures
        match port {
            Some(p) => r@ == host_binding_spec(Some(p@)),
            None => r@ == host_binding_spec(None),
        },
{
    let mut r: Vec<u8> = Vec::new();
    r.push(48);
    r.push(46);
    r.push(48);
    r.push(46);
    r.push(48);
    r.push(46);
    r.push(48);
    proof {
        assert(r@ =~= all_interfaces());
    }
    match port {
        Some(p) => {
            r.push(58);
            let ghost head = all_interfaces() + seq![58u8];
            proof {
                assert(r@ =~= head + p@.subrange(0, 0));
            }
            let mut i: usize = 0;
            while i < p.len()
                invariant
                    i <= p@.len(),
                    r@ == head + p@.subrange(0, i as int),
                decreases p@.len() - i,
            {
                r.push(p[i]);
                proof {
                    assert(head + p@.subrange(0, i + 1) =~= (head + p@.subrange(0, i as int)).push(
                        p@[i as int],
                    ));
                }
                i += 1;
            }
            proof {
                assert(p@.subrange(0, p@.len() as int) =~= p@);
            }
            r
        },
        None => r,
    }
}

} // verus!
