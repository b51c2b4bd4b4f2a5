//! The settings that the bridge reads from `pupil-osc.toml`, as far as they
//! are plain values: the OSC address of the driven parameter and the accepted
//! capture rate.

use vstd::prelude::*;

verus! {

/// Every avatar parameter lives under this OSC path in VRChat.
pub const ADDRESS_PREFIX: &'static str = "/avatar/parameters/";

/// The parameter driven when the config names none.
pub const DEFAULT_PARAMETER: &'static str = "PupilSize";

/// VRChat's OSC input port.
pub const DEFAULT_OSC_PORT: u16 = 9000;

/// The window measured when the config names none (substring of its title).
pub const DEFAULT_WINDOW_TITLE: &'static str = "VRChat";

/// Frames measured per second when the config names no rate.
pub const DEFAULT_CAPTURE_FPS: u32 = 10;

/// Slowest capture rate accepted: a rate of zero would never measure.
pub const MIN_CAPTURE_FPS: u32 = 1;

/// Fastest capture rate accepted: the pupil's quickest move takes ~0.3 s, so
/// nothing is gained above this.
pub const MAX_CAPTURE_FPS: u32 = 60;

/// The full OSC address of an avatar parameter.
pub open spec fn address_of(parameter: Seq<char>) -> Seq<char> {
    "/avatar/parameters/"@ + parameter
}

/// A capture rate brought into `MIN_CAPTURE_FPS..=MAX_CAPTURE_FPS`.
pub open spec fn clamped_fps(fps: u32) -> u32 {
    if fps < MIN_CAPTURE_FPS {
        MIN_CAPTURE_FPS
    } else if fps > MAX_CAPTURE_FPS {
        MAX_CAPTURE_FPS
    } else {
        fps
    }
}

/// Full OSC address for the avatar parameter `parameter`.
pub fn address(parameter: &str) -> (res: String)
    ensures
        res@ == address_of(parameter@),
        res@ == "/avatar/parameters/"@ + parameter@,
{
    let mut res = String::from_str(ADDRESS_PREFIX);
    res.append(parameter);
    res
}

/// The capture rate a hand-edited config is held to: clamped into
/// `MIN_CAPTURE_FPS..=MAX_CAPTURE_FPS`, so that a typo can neither stop the
/// measurement nor spin it.
pub fn validated_capture_fps(fps: u32) -> (res: u32)
    ensures
        res == clamped_fps(fps),
        MIN_CAPTURE_FPS <= res <= MAX_CAPTURE_FPS,
        MIN_CAPTURE_FPS <= fps <= MAX_CAPTURE_FPS ==> res == fps,
        fps > MAX_CAPTURE_FPS ==> res == MAX_CAPTURE_FPS,
        fps < MIN_CAPTURE_FPS ==> res == MIN_CAPTURE_FPS,
{
    if fps < MIN_CAPTURE_FPS {
        MIN_CAPTURE_FPS
    } else if fps > MAX_CAPTURE_FPS {
        MAX_CAPTURE_FPS
    } else {
        fps
    }
}

/// The address is the prefix followed by the whole parameter, whatever its
/// length: nothing of the parameter is cut, and two different parameters never
/// share an address.
pub proof fn lemma_address_keeps_the_whole_parameter(p: Seq<char>, q: Seq<char>)
    ensures
        address_of(p).len() == 19 + p.len(),
        address_of(p).subrange(0, 19) == "/avatar/parameters/"@,
        address_of(p).subrange(19, address_of(p).len() as int) == p,
        address_of(p) == address_of(q) ==> p == q,
{
    reveal_strlit("/avatar/parameters/");
    let a = address_of(p);
    assert(a.subrange(0, 19) =~= "/avatar/parameters/"@);
    assert(a.subrange(19, a.len() as int) =~= p);
    if address_of(p) == address_of(q) {
        let b = address_of(q);
        assert(b.subrange(19, b.len() as int) =~= q);
    }
}

/// The accepted capture rate is the hand-edited one pulled to the nearest end
/// of `1..=60`: any rate above the range becomes exactly 60, any below it
/// exactly 1, one inside it is kept, and a higher request never gives a lower
/// rate.
pub proof fn lemma_capture_rate_is_clamped(fps: u32, other: u32)
    ensures
        fps > 60 ==> clamped_fps(fps) == 60,
        fps < 1 ==> clamped_fps(fps) == 1,
        1 <= fps <= 60 ==> clamped_fps(fps) == fps,
        1 <= clamped_fps(fps) <= 60,
        fps <= other ==> clamped_fps(fps) <= clamped_fps(other),
{
}

} // verus!
