use vstd::prelude::*;

use crate::label::{label_of, window_label};

verus! {

/// Initial inner width of a spawned window, in logical pixels.
pub const INNER_WIDTH: u32 = 1600;

/// Initial inner height of a spawned window, in logical pixels.
pub const INNER_HEIGHT: u32 = 1000;

/// Smallest inner width a spawned window can be resized to.
pub const MIN_INNER_WIDTH: u32 = 1200;

/// Smallest inner height a spawned window can be resized to.
pub const MIN_INNER_HEIGHT: u32 = 800;

/// Everything the framework needs to build one more webview window.
pub struct WindowDescriptor {
    pub label: String,
    pub title: String,
    pub url: String,
    pub width: u32,
    pub height: u32,
    pub min_width: u32,
    pub min_height: u32,
    pub resizable: bool,
}

/// The title every spawned window carries.
pub open spec fn window_title() -> Seq<char> {
    seq!['R', 'i', 'c', 'h', 'D', 'a', 'd']
}

/// The route every spawned window opens: the application's root.
pub open spec fn root_route() -> Seq<char> {
    seq!['/']
}

/// Whether `d` describes the window to create while `count` windows are live.
pub open spec fn describes_new_window(d: WindowDescriptor, count: nat) -> bool {
    &&& d.label@ == label_of(count)
    &&& d.title@ == window_title()
    &&& d.url@ == root_route()
    &&& d.width == INNER_WIDTH
    &&& d.height == INNER_HEIGHT
    &&& d.min_width == MIN_INNER_WIDTH
    &&& d.min_height == MIN_INNER_HEIGHT
    &&& d.resizable
}

/// The descriptor of the window to create while `count` windows are live.
pub fn window_descriptor(count: usize) -> (r: WindowDescriptor)
    ensures
        describes_new_window(r, count as nat),
{
    let title = String::from_str("RichDad");
    let url = String::from_str("/");
    proof {
        reveal_strlit("RichDad");
        reveal_strlit("/");
    }
    assert(title@ =~= window_title());
    assert(url@ =~= root_route());
    WindowDescriptor {
        label: window_label(count),
        title,
        url,
        width: INNER_WIDTH,
        height: INNER_HEIGHT,
        min_width: MIN_INNER_WIDTH,
        min_height: MIN_INNER_HEIGHT,
        resizable: true,
    }
}

} // verus!
