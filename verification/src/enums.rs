//! The closed vocabularies that classify exercises and equipment.
//!
//! Every value has a `name`, the text under which it is stored and by which
//! it is filtered.  The three vocabularies that are shown to the user in a
//! longer form also have a `label`.

use vstd::prelude::*;

verus! {

/// A value of a closed vocabulary, with the text under which it is stored.
pub trait Stored: Copy {
    spec fn spec_name(&self) -> Seq<char>;

    fn name(&self) -> (r: &'static str)
        ensures
            r@ == self.spec_name(),
    ;
}

/// How far the body is extended in a lever hold.
#[derive(Debug, Clone, Copy, PartialEq, Eq, Hash, Structural)]
pub enum LeverVariation {
    Tuck,
    AdvancedTuck,
    Straddle,
    OneLeg,
    HalfLay,
    Full,
}

impl Stored for LeverVariation {
    open spec fn spec_name(&self) -> Seq<char> {
        match self {
            LeverVariation::Tuck => "Tuck"@,
            LeverVariation::AdvancedTuck => "AdvancedTuck"@,
            LeverVariation::Straddle => "Straddle"@,
            LeverVariation::OneLeg => "OneLeg"@,
            LeverVariation::HalfLay => "HalfLay"@,
            LeverVariation::Full => "Full"@,
        }
    }

    fn name(&self) -> (r: &'static str) {
        match self {
            LeverVariation::Tuck => "Tuck",
            LeverVariation::AdvancedTuck => "AdvancedTuck",
            LeverVariation::Straddle => "Straddle",
            LeverVariation::OneLeg => "OneLeg",
            LeverVariation::HalfLay => "HalfLay",
            LeverVariation::Full => "Full",
        }
    }
}

impl LeverVariation {
    /// The text shown to the user.
    pub open spec fn spec_label(self) -> Seq<char> {
        match self {
            LeverVariation::Tuck => "Tuck"@,
            LeverVariation::AdvancedTuck => "Advanced Tuck"@,
            LeverVariation::Straddle => "Straddle"@,
            LeverVariation::OneLeg => "One Leg"@,
            LeverVariation::HalfLay => "Half Lay"@,
            LeverVariation::Full => "Full"@,
        }
    }

    /// The text shown to the user.
    pub fn label(&self) -> (r: String)
        ensures
            r@ == self.spec_label(),
    {
        match self {
            LeverVariation::Tuck => "Tuck".to_owned(),
            LeverVariation::AdvancedTuck => "Advanced Tuck".to_owned(),
            LeverVariation::Straddle => "Straddle".to_owned(),
            LeverVariation::OneLeg => "One Leg".to_owned(),
            LeverVariation::HalfLay => "Half Lay".to_owned(),
            LeverVariation::Full => "Full".to_owned(),
        }
    }
}

/// How the hands hold the bar, the rings or the floor.
#[derive(Debug, Clone, Copy, PartialEq, Eq, Hash, Structural)]
pub enum Grip {
    Pronated,
    Supinated,
    Neutral,
    GymnasticsRing,
    Floor,
    Mixed,
}

impl Stored for Grip {
    open spec fn spec_name(&self) -> Seq<char> {
        match self {
            Grip::Pronated => "Pronated"@,
            Grip::Supinated => "Supinated"@,
            Grip::Neutral => "Neutral"@,
            Grip::GymnasticsRing => "GymnasticsRing"@,
            Grip::Floor => "Floor"@,
            Grip::Mixed => "Mixed"@,
        }
    }

    fn name(&self) -> (r: &'static str) {
        match self {
            Grip::Pronated => "Pronated",
            Grip::Supinated => "Supinated",
            Grip::Neutral => "Neutral",
            Grip::GymnasticsRing => "GymnasticsRing",
            Grip::Floor => "Floor",
            Grip::Mixed => "Mixed",
        }
    }
}

impl Grip {
    /// The text shown to the user.
    pub open spec fn spec_label(self) -> Seq<char> {
        match self {
            Grip::Pronated => "Pronated Grip"@,
            Grip::Supinated => "Supinated Grip"@,
            Grip::Neutral => "Neutral Grip"@,
            Grip::GymnasticsRing => "Gymnastics Ring Grip"@,
            Grip::Floor => "Floor Grip"@,
            Grip::Mixed => "Mixed Grip"@,
        }
    }

    /// The text shown to the user.
    pub fn label(&self) -> (r: String)
        ensures
            r@ == self.spec_label(),
    {
        match self {
            Grip::Pronated => "Pronated Grip".to_owned(),
            Grip::Supinated => "Supinated Grip".to_owned(),
            Grip::Neutral => "Neutral Grip".to_owned(),
            Grip::GymnasticsRing => "Gymnastics Ring Grip".to_owned(),
            Grip::Floor => "Floor Grip".to_owned(),
            Grip::Mixed => "Mixed Grip".to_owned(),
        }
    }
}

/// How far apart the hands are.
#[derive(Debug, Clone, Copy, PartialEq, Eq, Hash, Structural)]
pub enum GripWidth {
    Wide,
    Shoulder,
    Narrow,
}

impl Stored for GripWidth {
    open spec fn spec_name(&self) -> Seq<char> {
        match self {
            GripWidth::Wide => "Wide"@,
            GripWidth::Shoulder => "Shoulder"@,
            GripWidth::Narrow => "Narrow"@,
        }
    }

    fn name(&self) -> (r: &'static str) {
        match self {
            GripWidth::Wide => "Wide",
            GripWidth::Shoulder => "Shoulder",
            GripWidth::Narrow => "Narrow",
        }
    }
}

impl GripWidth {
    /// The text shown to the user.
    pub open spec fn spec_label(self) -> Seq<char> {
        match self {
            GripWidth::Wide => "Wide"@,
            GripWidth::Shoulder => "Shoulder Width"@,
            GripWidth::Narrow => "Narrow"@,
        }
    }

    /// The text shown to the user.
    pub fn label(&self) -> (r: String)
        ensures
            r@ == self.spec_label(),
    {
        match self {
            GripWidth::Wide => "Wide".to_owned(),
            GripWidth::Shoulder => "Shoulder Width".to_owned(),
            GripWidth::Narrow => "Narrow".to_owned(),
        }
    }
}

/// What an exercise of a workout is done with.
#[derive(Debug, Clone, Copy, PartialEq, Eq, Hash, Structural)]
pub enum Equipment {
    LowParallettes,
    HighParallettes,
    Bench,
    Dumbbells,
    Barbell,
    SmithMachine,
    GymnasticsRings,
    PullUpBar,
    DipBar,
}

impl Stored for Equipment {
    open spec fn spec_name(&self) -> Seq<char> {
        match self {
            Equipment::LowParallettes => "LowParallettes"@,
            Equipment::HighParallettes => "HighParallettes"@,
            Equipment::Bench => "Bench"@,
            Equipment::Dumbbells => "Dumbbells"@,
            Equipment::Barbell => "Barbell"@,
            Equipment::SmithMachine => "SmithMachine"@,
            Equipment::GymnasticsRings => "GymnasticsRings"@,
            Equipment::PullUpBar => "PullUpBar"@,
            Equipment::DipBar => "DipBar"@,
        }
    }

    fn name(&self) -> (r: &'static str) {
        match self {
            Equipment::LowParallettes => "LowParallettes",
            Equipment::HighParallettes => "HighParallettes",
            Equipment::Bench => "Bench",
            Equipment::Dumbbells => "Dumbbells",
            Equipment::Barbell => "Barbell",
            Equipment::SmithMachine => "SmithMachine",
            Equipment::GymnasticsRings => "GymnasticsRings",
            Equipment::PullUpBar => "PullUpBar",
            Equipment::DipBar => "DipBar",
        }
    }
}

/// A resistance band, by its colour.
#[derive(Debug, Clone, Copy, PartialEq, Eq, Hash, Structural)]
pub enum Band {
    Yellow,
    Red,
    Black,
    Purple,
    Green,
}

impl Stored for Band {
    open spec fn spec_name(&self) -> Seq<char> {
        match self {
            Band::Yellow => "Yellow"@,
            Band::Red => "Red"@,
            Band::Black => "Black"@,
            Band::Purple => "Purple"@,
            Band::Green => "Green"@,
        }
    }

    fn name(&self) -> (r: &'static str) {
        match self {
            Band::Yellow => "Yellow",
            Band::Red => "Red",
            Band::Black => "Black",
            Band::Purple => "Purple",
            Band::Green => "Green",
        }
    }
}

/// Whether an upper body compound exercise pushes or pulls.
#[derive(Debug, Clone, Copy, PartialEq, Eq, Hash, Structural)]
pub enum PushOrPull {
    Push,
    Pull,
}

impl Stored for PushOrPull {
    open spec fn spec_name(&self) -> Seq<char> {
        match self {
            PushOrPull::Push => "Push"@,
            PushOrPull::Pull => "Pull"@,
        }
    }

    fn name(&self) -> (r: &'static str) {
        match self {
            PushOrPull::Push => "Push",
            PushOrPull::Pull => "Pull",
        }
    }
}

/// Whether an exercise moves or holds.
#[derive(Debug, Clone, Copy, PartialEq, Eq, Hash, Structural)]
pub enum DynamicOrStatic {
    Dynamic,
    Static,
}

impl Stored for DynamicOrStatic {
    open spec fn spec_name(&self) -> Seq<char> {
        match self {
            DynamicOrStatic::Dynamic => "Dynamic"@,
            DynamicOrStatic::Static => "Static"@,
        }
    }

    fn name(&self) -> (r: &'static str) {
        match self {
            DynamicOrStatic::Dynamic => "Dynamic",
            DynamicOrStatic::Static => "Static",
        }
    }
}

/// Whether the arms stay straight or bend.
#[derive(Debug, Clone, Copy, PartialEq, Eq, Hash, Structural)]
pub enum StraightOrBentArm {
    Straight,
    Bent,
}

impl Stored for StraightOrBentArm {
    open spec fn spec_name(&self) -> Seq<char> {
        match self {
            StraightOrBentArm::Straight => "Straight"@,
            StraightOrBentArm::Bent => "Bent"@,
        }
    }

    fn name(&self) -> (r: &'static str) {
        match self {
            StraightOrBentArm::Straight => "Straight",
            StraightOrBentArm::Bent => "Bent",
        }
    }
}

/// Whether a lower body compound exercise squats or hinges.
#[derive(Debug, Clone, Copy, PartialEq, Eq, Hash, Structural)]
pub enum SquatOrHinge {
    Squat,
    Hinge,
}

impl Stored for SquatOrHinge {
    open spec fn spec_name(&self) -> Seq<char> {
        match self {
            SquatOrHinge::Squat => "Squat"@,
            SquatOrHinge::Hinge => "Hinge"@,
        }
    }

    fn name(&self) -> (r: &'static str) {
        match self {
            SquatOrHinge::Squat => "Squat",
            SquatOrHinge::Hinge => "Hinge",
        }
    }
}

/// The half of the body that an exercise trains.
#[derive(Debug, Clone, Copy, PartialEq, Eq, Hash, Structural)]
pub enum UpperOrLower {
    Upper,
    Lower,
}

impl Stored for UpperOrLower {
    open spec fn spec_name(&self) -> Seq<char> {
        match self {
            UpperOrLower::Upper => "Upper"@,
            UpperOrLower::Lower => "Lower"@,
        }
    }

    fn name(&self) -> (r: &'static str) {
        match self {
            UpperOrLower::Upper => "Upper",
            UpperOrLower::Lower => "Lower",
        }
    }
}

/// Whether an exercise moves several joints or one.
#[derive(Debug, Clone, Copy, PartialEq, Eq, Hash, Structural)]
pub enum CompoundOrIsolation {
    Compound,
    Isolation,
}

impl Stored for CompoundOrIsolation {
    open spec fn spec_name(&self) -> Seq<char> {
        match self {
            CompoundOrIsolation::Compound => "Compound"@,
            CompoundOrIsolation::Isolation => "Isolation"@,
        }
    }

    fn name(&self) -> (r: &'static str) {
        match self {
            CompoundOrIsolation::Compound => "Compound",
            CompoundOrIsolation::Isolation => "Isolation",
        }
    }
}

} // verus!
