//! The sprite model: a sheet of named states that share one canvas size.

use crate::frame::clone_image;
use crate::frame::picture;
use crate::frame::pictures;
use crate::frame::Picture;
use image::DynamicImage;
use vstd::prelude::*;

verus! {

/// How often an animated state plays.
#[derive(Clone, Copy, Debug, PartialEq, Eq, Structural)]
pub enum Looping {
    /// Without end.
    Indefinitely,
    /// The given number of times.
    NTimes(u32),
}

/// A marked pixel of a state: the place that counts when the state is used
/// as a cursor.
#[derive(Clone, Copy, Debug, PartialEq, Eq, Structural)]
pub struct Hotspot {
    pub x: u32,
    pub y: u32,
}

/// One named animation of a sheet.
#[derive(Debug, PartialEq)]
pub struct IconState {
    /// The name by which the state is looked up. Names need not be unique.
    pub name: String,
    /// How many facing variants the animation has.
    pub dirs: u8,
    /// How many frames each facing variant has.
    pub frames: u32,
    /// The frame images, one for each direction of each frame, in one list.
    pub images: Vec<DynamicImage>,
    /// The display duration of each frame in ticks, shared by all directions.
    pub delay: Option<Vec<u32>>,
    /// How often the animation plays.
    pub loop_flag: Looping,
    /// Whether the animation plays backwards after it played forwards.
    pub rewind: bool,
    /// Whether the state is shown while its owner moves.
    pub movement: bool,
    pub hotspot: Option<Hotspot>,
    /// Settings that the sheet carried and this library does not interpret.
    pub unknown_settings: Option<Vec<(String, String)>>,
}

/// What a state is to the contracts.
#[verifier::ext_equal]
pub struct IconStateView {
    pub name: Seq<char>,
    pub dirs: u8,
    pub frames: u32,
    pub images: Seq<Picture>,
    pub delay: Option<Seq<u32>>,
    pub loop_flag: Looping,
    pub rewind: bool,
    pub movement: bool,
    pub hotspot: Option<Hotspot>,
    pub unknown_settings: Option<Seq<(Seq<char>, Seq<char>)>>,
}

/// What the durations of a state are to the contracts.
pub open spec fn delay_view(delay: Option<Vec<u32>>) -> Option<Seq<u32>> {
    match delay {
        Some(d) => Some(d@),
        None => None,
    }
}

/// The view of a list of settings.
pub open spec fn settings_view(settings: Seq<(String, String)>) -> Seq<(Seq<char>, Seq<char>)> {
    settings.map_values(|kv: (String, String)| (kv.0@, kv.1@))
}

impl View for IconState {
    type V = IconStateView;

    open spec fn view(&self) -> IconStateView {
        IconStateView {
            name: self.name@,
            dirs: self.dirs,
            frames: self.frames,
            images: pictures(self.images@),
            delay: delay_view(self.delay),
            loop_flag: self.loop_flag,
            rewind: self.rewind,
            movement: self.movement,
            hotspot: self.hotspot,
            unknown_settings: match self.unknown_settings {
                Some(s) => Some(settings_view(s@)),
                None => None,
            },
        }
    }
}

/// Copies a list of frame images.
pub fn clone_images(images: &Vec<DynamicImage>) -> (copy: Vec<DynamicImage>)
    ensures
        pictures(copy@) == pictures(images@),
{
    let mut copy: Vec<DynamicImage> = Vec::new();
    let mut i: usize = 0;
    while i < images.len()
        invariant
            i <= images.len(),
            copy.len() == i,
            forall|k: int| 0 <= k < i ==> picture(#[trigger] copy@[k]) == picture(images@[k]),
        decreases images.len() - i,
    {
        let image = clone_image(&images[i]);
        copy.push(image);
        i = i + 1;
    }
    copy
}

/// Copies a list of frame durations.
pub fn clone_delays(delays: &Vec<u32>) -> (copy: Vec<u32>)
    ensures
        copy@ == delays@,
{
    let mut copy: Vec<u32> = Vec::new();
    let mut i: usize = 0;
    while i < delays.len()
        invariant
            i <= delays.len(),
            copy@ == delays@.take(i as int),
        decreases delays.len() - i,
    {
        copy.push(delays[i]);
        i = i + 1;
    }
    copy
}

/// Copies a list of settings.
pub fn clone_settings(settings: &Vec<(String, String)>) -> (copy: Vec<(String, String)>)
    ensures
        settings_view(copy@) == settings_view(settings@),
{
    let mut copy: Vec<(String, String)> = Vec::new();
    let mut i: usize = 0;
    while i < settings.len()
        invariant
            i <= settings.len(),
            copy.len() == i,
            forall|k: int|
                0 <= k < i ==> (#[trigger] copy@[k]).0@ == settings@[k].0@ && copy@[k].1@
                    == settings@[k].1@,
        decreases settings.len() - i,
    {
        let key = settings[i].0.clone();
        let value = settings[i].1.clone();
        copy.push((key, value));
        i = i + 1;
    }
    copy
}

impl Clone for IconState {
    fn clone(&self) -> (copy: Self)
        ensures
            copy@ == self@,
    {
        IconState {
            name: self.name.clone(),
            dirs: self.dirs,
            frames: self.frames,
            images: clone_images(&self.images),
            delay: match &self.delay {
                Some(d) => Some(clone_delays(d)),
                None => None,
            },
            loop_flag: self.loop_flag,
            rewind: self.rewind,
            movement: self.movement,
            hotspot: self.hotspot,
            unknown_settings: match &self.unknown_settings {
                Some(s) => Some(clone_settings(s)),
                None => None,
            },
        }
    }
}

/// The views of a list of states, in order.
pub open spec fn states_view(states: Seq<IconState>) -> Seq<IconStateView> {
    states.map_values(|s: IconState| s@)
}

/// Copies a list of states.
pub fn clone_states(states: &Vec<IconState>) -> (copy: Vec<IconState>)
    ensures
        states_view(copy@) == states_view(states@),
{
    let mut copy: Vec<IconState> = Vec::new();
    let mut i: usize = 0;
    while i < states.len()
        invariant
            i <= states.len(),
            copy.len() == i,
            forall|k: int| 0 <= k < i ==> (#[trigger] copy@[k])@ == states@[k]@,
        decreases states.len() - i,
    {
        copy.push(states[i].clone());
        i = i + 1;
    }
    copy
}

/// A sprite sheet: ordered named states on one canvas size. The order of the
/// states matters: derived states are placed by position.
#[derive(Debug, PartialEq)]
pub struct Icon {
    /// The canvas width in pixels.
    pub width: u32,
    /// The canvas height in pixels.
    pub height: u32,
    pub states: Vec<IconState>,
}

/// What a sheet is to the contracts.
#[verifier::ext_equal]
pub struct IconView {
    pub width: u32,
    pub height: u32,
    pub states: Seq<IconStateView>,
}

impl View for Icon {
    type V = IconView;

    open spec fn view(&self) -> IconView {
        IconView {
            width: self.width,
            height: self.height,
            states: states_view(self.states@),
        }
    }
}

impl Clone for Icon {
    fn clone(&self) -> (copy: Self)
        ensures
            copy@ == self@,
    {
        Icon {
            width: self.width,
            height: self.height,
            states: clone_states(&self.states),
        }
    }
}

} // verus!
