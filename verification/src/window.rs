use vstd::prelude::*;

use crate::text::{chars_of, span_equals};

verus! {

/// `c` with an ASCII capital letter turned into its small letter.
pub open spec fn ascii_lower(c: char) -> char {
    if 'A' <= c <= 'Z' {
        ((c as int) + 32) as char
    } else {
        c
    }
}

/// Whether the session type names a Wayland session, in any mix of cases.
/// (No character outside ASCII lowers to one of the letters of "wayland",
/// so this is the same test as comparing the lowered text.)
pub open spec fn is_wayland(session_type: Seq<char>) -> bool {
    &&& session_type.len() == "wayland"@.len()
    &&& forall|i: int| 0 <= i < session_type.len() ==> ascii_lower(#[trigger] session_type[i])
        == "wayland"@[i]
}

/// The screen edge the overlay keeps to.
#[derive(Clone, Copy, Debug, PartialEq, Eq, Structural)]
pub enum ScreenEdge {
    Top,
    Bottom,
}

/// Where a layer-shell overlay stands.
#[derive(Clone, Copy, Debug, PartialEq, Eq, Structural)]
pub enum LayerAnchor {
    /// Anchored to an edge, that many pixels in from it.
    Edge(ScreenEdge, i32),
    /// Anchored to neither the top nor the bottom: centred.
    Centered,
}

/// How the overlay window is set up.
#[derive(Clone, Copy, Debug, PartialEq, Eq, Structural)]
pub enum WindowPlacement {
    /// Under Wayland: a layer-shell surface on the overlay layer, in the
    /// "fnq-overlay" namespace, that never takes the keyboard.
    Layer(LayerAnchor),
    /// Elsewhere: a window without decorations that cannot take focus.
    Plain,
}

/// The anchor that the configured edge names: "top", "bottom", and
/// centred for anything else.
pub open spec fn anchor_for(anchor_edge: Seq<char>, margin: i32) -> LayerAnchor {
    if anchor_edge == "top"@ {
        LayerAnchor::Edge(ScreenEdge::Top, margin)
    } else if anchor_edge == "bottom"@ {
        LayerAnchor::Edge(ScreenEdge::Bottom, margin)
    } else {
        LayerAnchor::Centered
    }
}

/// The set-up for a session of type `session_type`.
pub open spec fn placement_for(session_type: Seq<char>, anchor_edge: Seq<char>, margin: i32) -> WindowPlacement {
    if is_wayland(session_type) {
        WindowPlacement::Layer(anchor_for(anchor_edge, margin))
    } else {
        WindowPlacement::Plain
    }
}

/// Whether `session_type` is "wayland" in any mix of cases.
pub fn is_wayland_session(session_type: &str) -> (r: bool)
    ensures
        r == is_wayland(session_type@),
{
    let v = chars_of(session_type);
    let w = chars_of("wayland");
    if v.len() != w.len() {
        return false;
    }
    let mut i: usize = 0;
    while i < v.len()
        invariant
            v@ == session_type@,
            w@ == "wayland"@,
            v@.len() == w@.len(),
            i <= v@.len(),
            forall|k: int| 0 <= k < i ==> ascii_lower(#[trigger] v@[k]) == w@[k],
        decreases v.len() - i,
    {
        let c = v[i];
        let lowered = if 'A' <= c && c <= 'Z' {
            ((c as u32) + 32) as u8 as char
        } else {
            c
        };
        if lowered != w[i] {
            return false;
        }
        i = i + 1;
    }
    true
}

/// Decides how the overlay window is set up, from the session type and the
/// configured edge and margin.
pub fn window_placement(session_type: &str, anchor_edge: &str, margin_offset: i32) -> (p:
    WindowPlacement)
    ensures
        p == placement_for(session_type@, anchor_edge@, margin_offset),
{
    if !is_wayland_session(session_type) {
        return WindowPlacement::Plain;
    }
    let edge = chars_of(anchor_edge);
    let n = edge.len();
    if span_equals(&edge, 0, n, "top") {
        assert(edge@.subrange(0, n as int) =~= edge@);
        WindowPlacement::Layer(LayerAnchor::Edge(ScreenEdge::Top, margin_offset))
    } else if span_equals(&edge, 0, n, "bottom") {
        assert(edge@.subrange(0, n as int) =~= edge@);
        WindowPlacement::Layer(LayerAnchor::Edge(ScreenEdge::Bottom, margin_offset))
    } else {
        assert(edge@.subrange(0, n as int) =~= edge@);
        WindowPlacement::Layer(LayerAnchor::Centered)
    }
}

/// Under Wayland the overlay keeps to the configured edge at the configured
/// margin, whatever the margin: "top" anchors it to the top, "bottom" to
/// the bottom, anything else centres it; any other session gets a plain
/// window.
pub proof fn law_edge_carries_the_margin(session_type: Seq<char>, anchor_edge: Seq<char>, margin: i32)
    ensures
        is_wayland(session_type) && anchor_edge == "top"@ ==> placement_for(
            session_type,
            anchor_edge,
            margin,
        ) == WindowPlacement::Layer(LayerAnchor::Edge(ScreenEdge::Top, margin)),
        is_wayland(session_type) && anchor_edge == "bottom"@ ==> placement_for(
            session_type,
            anchor_edge,
            margin,
        ) == WindowPlacement::Layer(LayerAnchor::Edge(ScreenEdge::Bottom, margin)),
        is_wayland(session_type) && anchor_edge != "top"@ && anchor_edge != "bottom"@
            ==> placement_for(session_type, anchor_edge, margin) == WindowPlacement::Layer(
            LayerAnchor::Centered,
        ),
        !is_wayland(session_type) ==> placement_for(session_type, anchor_edge, margin)
            == WindowPlacement::Plain,
        placement_for(session_type, anchor_edge, margin) matches WindowPlacement::Layer(
            LayerAnchor::Edge(_, k),
        ) ==> k == margin,
{
    reveal_strlit("top");
    reveal_strlit("bottom");
    assert("top"@.len() != "bottom"@.len());
}

/// The session test ignores case: "wayland" in any mix of capital and
/// small letters is a Wayland session, and two names that differ only in
/// the case of ASCII letters are judged alike.
pub proof fn law_session_ignores_case(a: Seq<char>, b: Seq<char>)
    ensures
        is_wayland("wayland"@),
        a.len() == b.len() && (forall|i: int|
            0 <= i < a.len() ==> ascii_lower(#[trigger] a[i]) == ascii_lower(b[i]))
            ==> is_wayland(a) == is_wayland(b),
{
    reveal_strlit("wayland");
    assert forall|i: int| 0 <= i < "wayland"@.len() implies ascii_lower(
        #[trigger] "wayland"@[i],
    ) == "wayland"@[i] by {}
    if a.len() == b.len() && (forall|i: int|
        0 <= i < a.len() ==> ascii_lower(#[trigger] a[i]) == ascii_lower(b[i])) {
        if is_wayland(a) {
            assert forall|i: int| 0 <= i < b.len() implies ascii_lower(#[trigger] b[i])
                == "wayland"@[i] by {
                assert(ascii_lower(a[i]) == ascii_lower(b[i]));
            }
        }
        if is_wayland(b) {
            assert forall|i: int| 0 <= i < a.len() implies ascii_lower(#[trigger] a[i])
                == "wayland"@[i] by {
                assert(ascii_lower(a[i]) == ascii_lower(b[i]));
            }
        }
    }
}

} // verus!
