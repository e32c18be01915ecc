//! The textures of planets.

use vstd::prelude::*;

use crate::animation::texture_manager::{TexturePart, TextureStateMachine};

verus! {

/// The textures a test planet can show.
#[derive(Debug, Copy, Clone, PartialEq, Eq, Structural, Hash)]
pub enum TextureTestPlanetBody {
    Blue,
    Red,
}

#[derive(Debug, Copy, Clone, PartialEq, Eq, Structural, Hash)]
pub enum TextureTestPlanetPart {
    Inner,
    Outer,
}

/// Which colour is inside; the outside shows the other one.
#[derive(Debug, Copy, Clone, PartialEq, Eq, Structural, Hash)]
pub enum TextureTestPlanetState {
    BlueInner,
    RedInner,
}

impl TexturePart for TextureTestPlanetPart {
    open spec fn spec_all() -> Seq<Self> {
        seq![TextureTestPlanetPart::Inner, TextureTestPlanetPart::Outer]
    }

    fn all() -> (r: Vec<Self>) {
        let mut r: Vec<Self> = Vec::new();
        r.push(TextureTestPlanetPart::Inner);
        r.push(TextureTestPlanetPart::Outer);
        r
    }

    fn same_part(&self, other: &Self) -> (r: bool) {
        *self == *other
    }
}

impl TextureStateMachine for TextureTestPlanetState {
    type BodyType = TextureTestPlanetBody;
    type PartType = TextureTestPlanetPart;

    open spec fn spec_initial() -> Self {
        TextureTestPlanetState::BlueInner
    }

    open spec fn spec_part_to_body(&self, part: TextureTestPlanetPart) -> TextureTestPlanetBody {
        match (*self, part) {
            (TextureTestPlanetState::BlueInner, TextureTestPlanetPart::Inner) => TextureTestPlanetBody::Blue,
            (TextureTestPlanetState::BlueInner, TextureTestPlanetPart::Outer) => TextureTestPlanetBody::Red,
            (TextureTestPlanetState::RedInner, TextureTestPlanetPart::Inner) => TextureTestPlanetBody::Red,
            (TextureTestPlanetState::RedInner, TextureTestPlanetPart::Outer) => TextureTestPlanetBody::Blue,
        }
    }

    fn initial() -> (r: Self) {
        TextureTestPlanetState::BlueInner
    }

    fn same_state(&self, other: &Self) -> (r: bool) {
        *self == *other
    }

    fn part_to_body(&self, part: TextureTestPlanetPart) -> (r: TextureTestPlanetBody) {
        match (self, part) {
            (TextureTestPlanetState::BlueInner, TextureTestPlanetPart::Inner) => TextureTestPlanetBody::Blue,
            (TextureTestPlanetState::BlueInner, TextureTestPlanetPart::Outer) => TextureTestPlanetBody::Red,
            (TextureTestPlanetState::RedInner, TextureTestPlanetPart::Inner) => TextureTestPlanetBody::Red,
            (TextureTestPlanetState::RedInner, TextureTestPlanetPart::Outer) => TextureTestPlanetBody::Blue,
        }
    }
}

impl TextureTestPlanetState {
    /// The other colouring of the planet.
    pub fn toggled(&self) -> (r: Self)
        ensures
            r != *self,
    {
        match self {
            TextureTestPlanetState::BlueInner => TextureTestPlanetState::RedInner,
            TextureTestPlanetState::RedInner => TextureTestPlanetState::BlueInner,
        }
    }
}

/// In every colouring the inside and the outside show different textures; toggling swaps them.
pub proof fn lemma_test_planet_parts_differ(state: TextureTestPlanetState)
    ensures
        state.spec_part_to_body(TextureTestPlanetPart::Inner) != state.spec_part_to_body(
            TextureTestPlanetPart::Outer,
        ),
        (match state {
            TextureTestPlanetState::BlueInner => TextureTestPlanetState::RedInner,
            TextureTestPlanetState::RedInner => TextureTestPlanetState::BlueInner,
        }).spec_part_to_body(TextureTestPlanetPart::Inner) == state.spec_part_to_body(
            TextureTestPlanetPart::Outer,
        ),
{
}

/// The one texture of a normal planet.
#[derive(Debug, Copy, Clone, PartialEq, Eq, Structural, Hash)]
pub enum TextureNormalPlanetBody {
    Egg,
}

#[derive(Debug, Copy, Clone, PartialEq, Eq, Structural, Hash)]
pub enum TextureNormalPlanetPart {
    Single,
}

#[derive(Debug, Copy, Clone, PartialEq, Eq, Structural, Hash)]
pub enum TextureNormalPlanetState {
    Default,
}

impl TexturePart for TextureNormalPlanetPart {
    open spec fn spec_all() -> Seq<Self> {
        seq![TextureNormalPlanetPart::Single]
    }

    fn all() -> (r: Vec<Self>) {
        let mut r: Vec<Self> = Vec::new();
        r.push(TextureNormalPlanetPart::Single);
        r
    }

    fn same_part(&self, other: &Self) -> (r: bool) {
        *self == *other
    }
}

impl TextureStateMachine for TextureNormalPlanetState {
    type BodyType = TextureNormalPlanetBody;
    type PartType = TextureNormalPlanetPart;

    open spec fn spec_initial() -> Self {
        TextureNormalPlanetState::Default
    }

    open spec fn spec_part_to_body(&self, part: TextureNormalPlanetPart) -> TextureNormalPlanetBody {
        TextureNormalPlanetBody::Egg
    }

    fn initial() -> (r: Self) {
        TextureNormalPlanetState::Default
    }

    fn same_state(&self, other: &Self) -> (r: bool) {
        *self == *other
    }

    fn part_to_body(&self, part: TextureNormalPlanetPart) -> (r: TextureNormalPlanetBody) {
        TextureNormalPlanetBody::Egg
    }
}

} // verus!
