//! Decisions of the Wayland client: which globals of the compositor it binds,
//! whether it has all it needs, and how long it waits for its surface.
use vstd::prelude::*;

verus! {

/// A global of the compositor that the client binds.
#[derive(Debug, Clone, Copy, PartialEq, Eq, Structural)]
pub enum WlGlobal {
    /// `wl_shm`
    Shm,
    /// `wl_compositor`
    Compositor,
    /// `zwlr_layer_shell_v1`
    LayerShell,
}

/// Which global an advertised interface name is, if the client binds it.
pub open spec fn spec_classify_global(interface: Seq<char>) -> Option<WlGlobal> {
    if interface == "wl_shm"@ {
        Some(WlGlobal::Shm)
    } else if interface == "wl_compositor"@ {
        Some(WlGlobal::Compositor)
    } else if interface == "zwlr_layer_shell_v1"@ {
        Some(WlGlobal::LayerShell)
    } else {
        None
    }
}

/// Which global an interface advertised by the compositor's registry is;
/// `None` for the interfaces the client ignores.
pub fn classify_global(interface: &str) -> (r: Option<WlGlobal>)
    ensures
        r == spec_classify_global(interface@),
{
    let name = interface.to_owned();
    if name == "wl_shm".to_owned() {
        Some(WlGlobal::Shm)
    } else if name == "wl_compositor".to_owned() {
        Some(WlGlobal::Compositor)
    } else if name == "zwlr_layer_shell_v1".to_owned() {
        Some(WlGlobal::LayerShell)
    } else {
        None
    }
}

/// Whether a protocol the client needs is missing after the first roundtrip,
/// so that the application has to quit.
pub fn missing_protocol(has_compositor: bool, has_shm: bool, has_layer_shell: bool) -> (r: bool)
    ensures
        r == !(has_compositor && has_shm && has_layer_shell),
{
    let mut missing = false;
    if !has_compositor {
        missing = true;
    }
    if !has_shm {
        missing = true;
    }
    if !has_layer_shell {
        missing = true;
    }
    missing
}

/// How long the client waits for the compositor to configure its surface, in
/// seconds.
pub const CONFIGURE_TIMEOUT_SECS: u64 = 5;

/// Whether the client keeps waiting for its surface to be configured: while the
/// surface size is still `(0, 0)` and less than the timeout has passed.
pub fn keep_waiting_for_configure(surface_size: (u32, u32), elapsed_nanos: u128) -> (r: bool)
    ensures
        r == (surface_size == (0u32, 0u32) && elapsed_nanos < CONFIGURE_TIMEOUT_SECS
            * 1_000_000_000),
{
    let timeout: u128 = (CONFIGURE_TIMEOUT_SECS as u128) * 1_000_000_000u128;
    surface_size.0 == 0 && surface_size.1 == 0 && elapsed_nanos < timeout
}

} // verus!
