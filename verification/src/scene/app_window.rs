//! What the window hands to the renderer: events as commands, the choice of
//! a display configuration, and the order in which kinds of context are
//! tried.

use vstd::prelude::*;
use crate::utils::vec_utils::Vec3;
use crate::scene::renderer::{
    camera_at,
    zoom_after,
    LookAt,
    Renderer,
    Viewport,
    SATELLITE_COUNT,
    SATELLITE_RADIUS,
};

verus! {

/// The change of the zoom for one press of the up or down arrow, in tenths
/// of a unit.
pub const ZOOM_STEP: i32 = 1;

/// The turning speed that the left and right arrows set, in hundredths of a
/// radian for each frame.
pub const TURN_SPEED: i32 = 5;

/// The keys with a name that the window tells apart.
#[derive(Clone, Copy, Debug, PartialEq, Eq)]
pub enum NamedKey {
    ArrowUp,
    ArrowDown,
    ArrowLeft,
    ArrowRight,
    Escape,
    Other,
}

/// A key by its meaning: the text it types, or its name.
#[derive(Clone, Debug, PartialEq, Eq)]
pub enum Key {
    Character(String),
    Named(NamedKey),
    Other,
}

/// An event of the window, as far as the renderer cares.
#[derive(Clone, Debug, PartialEq, Eq)]
pub enum WindowEvent {
    /// The window has a new size, in pixels.
    Resized { width: u32, height: u32 },
    /// A key went down (`pressed`) or up.
    KeyboardInput { key: Key, pressed: bool },
    /// The user asked for the window to close.
    CloseRequested,
    /// Anything else.
    Other,
}

/// What an event asks of the renderer.
#[derive(Clone, Copy, Debug, PartialEq, Eq)]
pub enum Command {
    /// Draw to a window of this size.
    Resize { width: i32, height: i32 },
    /// Place the satellites anew.
    RegenerateSatellites,
    /// Turn the view by this many hundredths of a radian in each frame.
    SetSpeed(i32),
    /// Move the camera by this many tenths of a unit.
    ZoomDelta(i32),
    /// End the program.
    Exit,
    /// Nothing.
    Nothing,
}

/// What is left to do outside once a command is applied.
#[derive(Clone, Copy, Debug, PartialEq)]
pub enum Effect {
    /// Nothing.
    Nothing,
    /// Rebuild the view matrix for this camera.
    Camera(LookAt),
    /// Set this viewport.
    Viewport(Viewport),
    /// Leave the event loop.
    Exit,
}

/// `x` as the signed number with the same thirty-two bits.
pub open spec fn wrapped_i32(x: u32) -> i32 {
    if x <= i32::MAX {
        x as i32
    } else {
        (x - 0x1_0000_0000) as i32
    }
}

/// `x` as the signed number with the same thirty-two bits, which is how a
/// size of the window reaches the graphics API.
pub fn wrapping_i32(x: u32) -> (y: i32)
    ensures
        y == wrapped_i32(x),
{
    if x <= 0x7fff_ffff {
        x as i32
    } else {
        (x as i64 - 0x1_0000_0000) as i32
    }
}

/// The text is the one ASCII letter whose lower case is `lower`, in either
/// case.
pub open spec fn text_is_letter(text: Seq<char>, lower: u8) -> bool {
    let bytes = vstd::utf8::encode_utf8(text);
    bytes.len() == 1 && (bytes[0] == lower || bytes[0] == lower - 32)
}

fn is_letter(text: &String, lower: u8) -> (matches: bool)
    requires
        97 <= lower <= 122,
    ensures
        matches == text_is_letter(text@, lower),
{
    let bytes = text.as_str().as_bytes();
    bytes.len() == 1 && (bytes[0] == lower || bytes[0] == lower - 32)
}

/// The command for an event. `has_surface` tells whether the window has a
/// surface to draw to at the moment.
///
/// A new size is passed on only with a surface and if neither side is zero.
/// Of the keys, pressing R places the satellites anew, S stops the camera,
/// the right and left arrows turn it one way or the other, and the up and
/// down arrows move it out or in by one step. Escape, pressed or released,
/// and a request to close end the program.
pub open spec fn command_for(event: WindowEvent, has_surface: bool) -> Command {
    match event {
        WindowEvent::Resized { width, height } => if width != 0 && height != 0 && has_surface {
            Command::Resize { width: wrapped_i32(width), height: wrapped_i32(height) }
        } else {
            Command::Nothing
        },
        WindowEvent::KeyboardInput { key: Key::Character(text), pressed: true } => if text_is_letter(
            text@,
            114,
        ) {
            Command::RegenerateSatellites
        } else if text_is_letter(text@, 115) {
            Command::SetSpeed(0)
        } else {
            Command::Nothing
        },
        WindowEvent::KeyboardInput { key: Key::Named(NamedKey::ArrowRight), pressed: true } => {
            Command::SetSpeed(TURN_SPEED)
        },
        WindowEvent::KeyboardInput { key: Key::Named(NamedKey::ArrowLeft), pressed: true } => {
            Command::SetSpeed((-TURN_SPEED) as i32)
        },
        WindowEvent::KeyboardInput { key: Key::Named(NamedKey::ArrowUp), pressed: true } => {
            Command::ZoomDelta(ZOOM_STEP)
        },
        WindowEvent::KeyboardInput { key: Key::Named(NamedKey::ArrowDown), pressed: true } => {
            Command::ZoomDelta((-ZOOM_STEP) as i32)
        },
        WindowEvent::KeyboardInput { key: Key::Named(NamedKey::Escape), pressed: _ } => Command::Exit,
        WindowEvent::CloseRequested => Command::Exit,
        _ => Command::Nothing,
    }
}

/// Turns an event of the window into the command it stands for.
pub fn window_event(event: &WindowEvent, has_surface: bool) -> (command: Command)
    ensures
        command == command_for(*event, has_surface),
{
    match event {
        WindowEvent::Resized { width, height } => {
            if *width != 0 && *height != 0 && has_surface {
                Command::Resize { width: wrapping_i32(*width), height: wrapping_i32(*height) }
            } else {
                Command::Nothing
            }
        },
        WindowEvent::KeyboardInput { key, pressed } => {
            match key {
                Key::Character(text) => {
                    if !*pressed {
                        Command::Nothing
                    } else if is_letter(text, 114) {
                        Command::RegenerateSatellites
                    } else if is_letter(text, 115) {
                        Command::SetSpeed(0)
                    } else {
                        Command::Nothing
                    }
                },
                Key::Named(NamedKey::ArrowRight) => {
                    if *pressed {
                        Command::SetSpeed(TURN_SPEED)
                    } else {
                        Command::Nothing
                    }
                },
                Key::Named(NamedKey::ArrowLeft) => {
                    if *pressed {
                        Command::SetSpeed(-TURN_SPEED)
                    } else {
                        Command::Nothing
                    }
                },
                Key::Named(NamedKey::ArrowUp) => {
                    if *pressed {
                        Command::ZoomDelta(ZOOM_STEP)
                    } else {
                        Command::Nothing
                    }
                },
                Key::Named(NamedKey::ArrowDown) => {
                    if *pressed {
                        Command::ZoomDelta(-ZOOM_STEP)
                    } else {
                        Command::Nothing
                    }
                },
                Key::Named(NamedKey::Escape) => Command::Exit,
                _ => Command::Nothing,
            }
        },
        WindowEvent::CloseRequested => Command::Exit,
        WindowEvent::Other => Command::Nothing,
    }
}

/// What applying `command` leaves to do outside.
pub open spec fn effect_of(command: Command, zoom: i32) -> Effect {
    match command {
        Command::Resize { width, height } => Effect::Viewport(
            Viewport { x: 0, y: 0, width, height },
        ),
        Command::ZoomDelta(delta) => Effect::Camera(camera_at(zoom_after(zoom, delta))),
        Command::Exit => Effect::Exit,
        _ => Effect::Nothing,
    }
}

/// Applies `command` to the renderer and tells what is left to do outside.
///
/// A change of zoom moves the camera and asks for the view of the new
/// camera; a speed is stored; new satellites are taken from
/// `spherical_rand`; a new size asks for its viewport. Whatever the command
/// does not name stays as it is.
pub fn apply<T: Copy, F>(
    renderer: &mut Renderer<T>,
    command: Command,
    spherical_rand: &F,
) -> (effect: Effect) where F: Fn(i32) -> Vec3<T>
    requires
        call_requires(*spherical_rand, (SATELLITE_RADIUS,)),
    ensures
        effect == effect_of(command, old(renderer).zoom()),
        final(renderer).zoom() == match command {
            Command::ZoomDelta(delta) => zoom_after(old(renderer).zoom(), delta),
            _ => old(renderer).zoom(),
        },
        final(renderer).speed() == match command {
            Command::SetSpeed(speed) => speed,
            _ => old(renderer).speed(),
        },
        command != Command::RegenerateSatellites ==> final(renderer).satellites() == old(
            renderer,
        ).satellites(),
        command == Command::RegenerateSatellites ==> final(renderer).satellites().len()
            == SATELLITE_COUNT && forall|i: int|
            0 <= i < SATELLITE_COUNT ==> call_ensures(
                *spherical_rand,
                (SATELLITE_RADIUS,),
                #[trigger] final(renderer).satellites()[i],
            ),
        final(renderer).models() == old(renderer).models(),
        final(renderer).dirt_texture() == old(renderer).dirt_texture(),
{
    match command {
        Command::Resize { width, height } => Effect::Viewport(renderer.resize(width, height)),
        Command::RegenerateSatellites => {
            renderer.generateRandomPos(spherical_rand);
            Effect::Nothing
        },
        Command::SetSpeed(speed) => {
            renderer.onSpeedChanged(speed);
            Effect::Nothing
        },
        Command::ZoomDelta(delta) => Effect::Camera(renderer.onZoomChanged(delta)),
        Command::Exit => Effect::Exit,
        Command::Nothing => Effect::Nothing,
    }
}

/// What the choice of a display configuration looks at: whether the
/// configuration supports transparent windows, as far as that is known, and
/// how many samples it takes for each pixel.
#[derive(Clone, Copy, Debug, PartialEq, Eq)]
pub struct ConfigTraits {
    pub supports_transparency: Option<bool>,
    pub num_samples: u8,
}

impl ConfigTraits {
    /// The configuration is known to support transparent windows.
    pub open spec fn transparent(self) -> bool {
        self.supports_transparency == Some(true)
    }
}

/// `config` is taken in place of `chosen`: it is transparent where `chosen`
/// is not, or it has more samples.
pub open spec fn preferred(config: ConfigTraits, chosen: ConfigTraits) -> bool {
    (config.transparent() && !chosen.transparent()) || config.num_samples > chosen.num_samples
}

/// The index of the configuration that is chosen among the first `n`: the
/// first one, unless a later one was preferred to the one chosen before it.
pub open spec fn picked(configs: Seq<ConfigTraits>, n: nat) -> int
    decreases n,
{
    if n <= 1 {
        0
    } else {
        let before = picked(configs, (n - 1) as nat);
        if preferred(configs[n - 1], configs[before]) {
            n - 1
        } else {
            before
        }
    }
}

/// The chosen configuration is one of those chosen from.
pub proof fn lemma_picked_in_range(configs: Seq<ConfigTraits>, n: nat)
    requires
        1 <= n,
    ensures
        0 <= picked(configs, n) < n,
    decreases n,
{
    if n > 1 {
        lemma_picked_in_range(configs, (n - 1) as nat);
    }
}

/// No configuration after the chosen one is preferred to it: none of them
/// has more samples, and none is transparent unless the chosen one is too.
pub proof fn lemma_picked_not_surpassed(configs: Seq<ConfigTraits>, n: nat, later: int)
    requires
        1 <= n,
        picked(configs, n) < later < n,
    ensures
        !preferred(configs[later], configs[picked(configs, n)]),
    decreases n,
{
    if n > 1 {
        lemma_picked_in_range(configs, (n - 1) as nat);
        if later < n - 1 {
            lemma_picked_not_surpassed(configs, (n - 1) as nat, later);
        }
    }
}

/// Where all configurations are alike in transparency, the chosen one is the
/// first with the most samples.
pub proof fn lemma_picked_most_samples(configs: Seq<ConfigTraits>, n: nat, other: int)
    requires
        1 <= n,
        0 <= other < n,
        forall|i: int, j: int|
            0 <= i < n && 0 <= j < n ==> configs[i].transparent() == configs[j].transparent(),
    ensures
        configs[other].num_samples <= configs[picked(configs, n)].num_samples,
        other < picked(configs, n) ==> configs[other].num_samples < configs[picked(
            configs,
            n,
        )].num_samples,
    decreases n,
{
    if n > 1 {
        lemma_picked_in_range(configs, (n - 1) as nat);
        if other < n - 1 {
            lemma_picked_most_samples(configs, (n - 1) as nat, other);
        } else {
            lemma_picked_most_samples(configs, (n - 1) as nat, picked(configs, (n - 1) as nat));
        }
    }
}

/// Chooses a display configuration: the index of the one that is left when
/// each in turn replaces the choice so far if it is preferred to it.
pub fn gl_config_picker(configs: &Vec<ConfigTraits>) -> (index: usize)
    requires
        configs@.len() > 0,
    ensures
        index == picked(configs@, configs@.len()),
        index < configs@.len(),
{
    let mut accum: usize = 0;
    let mut i: usize = 1;
    while i < configs.len()
        invariant
            1 <= i <= configs@.len(),
            accum == picked(configs@, i as nat),
            accum < i,
        decreases configs@.len() - i,
    {
        let config = configs[i];
        let chosen = configs[accum];
        let transparency_check = config.supports_transparency.unwrap_or(false)
            && !chosen.supports_transparency.unwrap_or(false);
        if transparency_check || config.num_samples > chosen.num_samples {
            accum = i;
        }
        i = i + 1;
    }
    accum
}

/// The kinds of context that can be asked for.
#[derive(Clone, Copy, Debug, PartialEq, Eq)]
pub enum ContextApi {
    /// What the platform gives when nothing is asked for.
    Default,
    /// OpenGL ES, in any version.
    Gles,
    /// OpenGL in the given version.
    OpenGl { major: u8, minor: u8 },
}

/// The kind of context that old devices without OpenGL ES can still give.
pub open spec fn legacy_context() -> ContextApi {
    ContextApi::OpenGl { major: 2, minor: 1 }
}

/// Asks `create` for a context, one kind after the other, until one is made:
/// first the default, then OpenGL ES for devices without it, then OpenGL 2.1
/// for old devices that have neither. What comes back is what the first
/// attempt that made a context gave, or nothing if all three failed.
pub fn create_gl_context<C, F>(create: &F) -> (context: Option<C>) where
    F: Fn(ContextApi) -> Option<C>,

    requires
        forall|api: ContextApi| call_requires(*create, (api,)),
    ensures
        ({
            ||| context is Some && call_ensures(*create, (ContextApi::Default,), context)
            ||| context is Some && call_ensures(*create, (ContextApi::Default,), None)
                && call_ensures(*create, (ContextApi::Gles,), context)
            ||| call_ensures(*create, (ContextApi::Default,), None) && call_ensures(
                *create,
                (ContextApi::Gles,),
                None,
            ) && call_ensures(*create, (legacy_context(),), context)
        }),
{
    let first = create(ContextApi::Default);
    if first.is_some() {
        return first;
    }
    let second = create(ContextApi::Gles);
    if second.is_some() {
        return second;
    }
    create(ContextApi::OpenGl { major: 2, minor: 1 })
}

/// How the window is asked for.
#[derive(Clone, Copy, Debug, PartialEq, Eq)]
pub struct WindowSettings {
    pub transparent: bool,
    pub title: &'static str,
}

/// The window of the demo: transparent, with the title that tells how to
/// leave.
pub fn window_attributes() -> (settings: WindowSettings)
    ensures
        settings.transparent,
        settings.title@ == "Cosmic Ant Simulator (press Escape to exit)"@,
{
    WindowSettings { transparent: true, title: "Cosmic Ant Simulator (press Escape to exit)" }
}

} // verus!
