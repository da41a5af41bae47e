//! Choosing a display backend on Linux at startup.
//!
//! Under a Wayland session the webview is steered to X11 where an X server
//! is available, to avoid compositor protocol errors — unless the user asked
//! to keep Wayland. The decision is over the relevant environment values;
//! reading and setting them is the caller's work.
use vstd::prelude::*;

verus! {

/// The ASCII-lowercased code point of a character.
pub open spec fn lower_code(c: char) -> u32 {
    if 'A' <= c && c <= 'Z' {
        (c as u32 + 32) as u32
    } else {
        c as u32
    }
}

/// ASCII-case-insensitive string equality.
pub open spec fn eq_ignore_ascii_case_spec(a: Seq<char>, b: Seq<char>) -> bool {
    a.len() == b.len() && forall|i: int| 0 <= i < a.len() ==> lower_code(#[trigger] a[i])
        == lower_code(b[i])
}

/// Compare two strings ignoring ASCII case.
pub fn eq_ignore_ascii_case(a: &str, b: &str) -> (r: bool)
    ensures
        r == eq_ignore_ascii_case_spec(a@, b@),
{
    let na = a.unicode_len();
    let nb = b.unicode_len();
    if na != nb {
        return false;
    }
    let mut i: usize = 0;
    while i < na
        invariant
            0 <= i <= na,
            na == a@.len(),
            na == b@.len(),
            forall|j: int| 0 <= j < i ==> lower_code(#[trigger] a@[j]) == lower_code(b@[j]),
        decreases na - i,
    {
        let ca = a.get_char(i);
        let cb = b.get_char(i);
        let ua = ca as u32;
        let ub = cb as u32;
        let la: u32 = if 65 <= ua && ua <= 90 {
            ua + 32
        } else {
            ua
        };
        let lb: u32 = if 65 <= ub && ub <= 90 {
            ub + 32
        } else {
            ub
        };
        assert(la == lower_code(a@[i as int]));
        assert(lb == lower_code(b@[i as int]));
        if la != lb {
            return false;
        }
        i = i + 1;
    }
    true
}

/// Whether an opt-in value means yes: `1`, `true` or `yes`, any ASCII case.
pub open spec fn is_truthy_spec(v: Seq<char>) -> bool {
    ||| eq_ignore_ascii_case_spec(v, "1"@)
    ||| eq_ignore_ascii_case_spec(v, "true"@)
    ||| eq_ignore_ascii_case_spec(v, "yes"@)
}

pub fn is_truthy(v: &str) -> (r: bool)
    ensures
        r == is_truthy_spec(v@),
{
    eq_ignore_ascii_case(v, "1") || eq_ignore_ascii_case(v, "true") || eq_ignore_ascii_case(
        v,
        "yes",
    )
}

/// What startup does about the display backend.
#[derive(PartialEq, Eq, Structural, Clone, Copy, Debug)]
pub enum BackendPlan {
    /// Not a Wayland session: change nothing, say nothing.
    NotWayland,
    /// Wayland, and the user explicitly asked to keep it: change nothing.
    KeepWayland,
    /// Wayland with an X server available: force the X11 backend.
    ForceX11,
    /// Wayland without an X server: keep Wayland, disable the DMABUF
    /// renderer.
    WaylandWithoutX11,
}

/// Whether the session is Wayland: the Wayland display is set, or the
/// session type says `wayland` in any case.
pub open spec fn on_wayland_spec(wayland_display: bool, xdg_session_type: Option<Seq<char>>) -> bool {
    wayland_display || (xdg_session_type matches Some(v) && eq_ignore_ascii_case_spec(
        v,
        "wayland"@,
    ))
}

/// The complete backend decision over the environment values.
pub open spec fn backend_plan_spec(
    wayland_display: bool,
    xdg_session_type: Option<Seq<char>>,
    allow_wayland: Option<Seq<char>>,
    x11_display: bool,
) -> BackendPlan {
    if !on_wayland_spec(wayland_display, xdg_session_type) {
        BackendPlan::NotWayland
    } else if allow_wayland matches Some(v) && is_truthy_spec(v) {
        BackendPlan::KeepWayland
    } else if x11_display {
        BackendPlan::ForceX11
    } else {
        BackendPlan::WaylandWithoutX11
    }
}

/// Decide the display backend. `wayland_display` and `x11_display` say
/// whether `WAYLAND_DISPLAY` and `DISPLAY` are set; the two option values
/// are the session type and the keep-Wayland opt-in, where present.
pub fn display_backend_plan(
    wayland_display: bool,
    xdg_session_type: Option<&str>,
    allow_wayland: Option<&str>,
    x11_display: bool,
) -> (r: BackendPlan)
    ensures
        r == backend_plan_spec(
            wayland_display,
            match xdg_session_type {
                Some(v) => Some(v@),
                None => None,
            },
            match allow_wayland {
                Some(v) => Some(v@),
                None => None,
            },
            x11_display,
        ),
{
    let on_wayland = wayland_display || (match xdg_session_type {
        Some(v) => eq_ignore_ascii_case(v, "wayland"),
        None => false,
    });
    if !on_wayland {
        BackendPlan::NotWayland
    } else if (match allow_wayland {
        Some(v) => is_truthy(v),
        None => false,
    }) {
        BackendPlan::KeepWayland
    } else if x11_display {
        BackendPlan::ForceX11
    } else {
        BackendPlan::WaylandWithoutX11
    }
}

/// The environment variables a plan sets (each only if absent): the X11
/// backend overrides, or the DMABUF renderer toggle alone.
pub fn backend_env_sets(plan: BackendPlan) -> (r: Vec<(String, String)>)
    ensures
        plan == BackendPlan::ForceX11 ==> r@.len() == 3 && (r@[0].0@ == "WINIT_UNIX_BACKEND"@
            && r@[0].1@ == "x11"@) && (r@[1].0@ == "GDK_BACKEND"@ && r@[1].1@ == "x11"@) && (
        r@[2].0@ == "WEBKIT_DISABLE_DMABUF_RENDERER"@ && r@[2].1@ == "1"@),
        plan == BackendPlan::WaylandWithoutX11 ==> r@.len() == 1 && (r@[0].0@
            == "WEBKIT_DISABLE_DMABUF_RENDERER"@ && r@[0].1@ == "1"@),
        plan == BackendPlan::NotWayland || plan == BackendPlan::KeepWayland ==> r@.len() == 0,
{
    let mut out: Vec<(String, String)> = Vec::new();
    match plan {
        BackendPlan::NotWayland => out,
        BackendPlan::KeepWayland => out,
        BackendPlan::ForceX11 => {
            let mut k0 = String::new();
            k0.append("WINIT_UNIX_BACKEND");
            let mut v0 = String::new();
            v0.append("x11");
            out.push((k0, v0));
            let mut k1 = String::new();
            k1.append("GDK_BACKEND");
            let mut v1 = String::new();
            v1.append("x11");
            out.push((k1, v1));
            let mut k2 = String::new();
            k2.append("WEBKIT_DISABLE_DMABUF_RENDERER");
            let mut v2 = String::new();
            v2.append("1");
            out.push((k2, v2));
            out
        },
        BackendPlan::WaylandWithoutX11 => {
            let mut k0 = String::new();
            k0.append("WEBKIT_DISABLE_DMABUF_RENDERER");
            let mut v0 = String::new();
            v0.append("1");
            out.push((k0, v0));
            out
        },
    }
}

} // verus!
