//! The exercise library: stored rows, the requests that create them, and the
//! classification of a row into one of five well-formed kinds of exercise.

use vstd::prelude::*;
use crate::enums::{
    CompoundOrIsolation, DynamicOrStatic, Grip, GripWidth, LeverVariation, PushOrPull,
    SquatOrHinge, StraightOrBentArm, Stored, UpperOrLower,
};
use crate::pagination::{
    ascending, in_fetch_order, page_cursors, page_from_rows, page_items, HasId, InvalidParams,
    PaginationParams, PaginationRes,
};
use crate::predicate::{
    all_well_formed, choice_clause, lemma_same_choice_same_clause, option_text, same_choice,
    text_clause, Cell, CellValue, Clause, Column, Predicate, Record,
};
use crate::query::{
    clauses_binds, clauses_sql, keyset_binds, keyset_sql, page_query, push_predicate, query_binds,
    query_text, SqlBuilder,
};

verus! {

/// An exercise as it is stored: every attribute that only some kinds of
/// exercise have is optional here.
#[derive(Debug, Clone, PartialEq, Eq, Hash)]
pub struct ExerciseLibraryEntity {
    pub id: u32,
    pub name: String,
    pub push_or_pull: Option<PushOrPull>,
    pub dynamic_or_static: DynamicOrStatic,
    pub straight_or_bent: Option<StraightOrBentArm>,
    pub squat_or_hinge: Option<SquatOrHinge>,
    pub upper_or_lower: UpperOrLower,
    pub compound_or_isolation: CompoundOrIsolation,
    pub lever_variation: Option<LeverVariation>,
    pub grip: Option<Grip>,
    pub grip_width: Option<GripWidth>,
    pub description: Option<String>,
}

/// What a caller supplies to create an exercise; the store assigns the id.
#[derive(Debug, Clone, PartialEq, Eq, Hash)]
pub struct ExerciseLibraryReq {
    pub name: String,
    pub push_or_pull: Option<PushOrPull>,
    pub dynamic_or_static: DynamicOrStatic,
    pub straight_or_bent: Option<StraightOrBentArm>,
    pub squat_or_hinge: Option<SquatOrHinge>,
    pub upper_or_lower: UpperOrLower,
    pub compound_or_isolation: CompoundOrIsolation,
    pub lever_variation: Option<LeverVariation>,
    pub grip: Option<Grip>,
    pub grip_width: Option<GripWidth>,
    pub description: Option<String>,
}

/// The attributes shared by both kinds of upper body compound exercise.
#[derive(Debug, Clone, PartialEq, Eq, Hash)]
pub struct UpperBodyCompoundExercise {
    pub id: u32,
    pub name: String,
    pub push_or_pull: PushOrPull,
    pub dynamic_or_static: DynamicOrStatic,
    pub straight_or_bent: StraightOrBentArm,
    pub lever_variation: Option<LeverVariation>,
    pub grip: Grip,
    pub grip_width: GripWidth,
}

/// An upper body compound exercise with straight arms.  It always has a
/// lever variation.
#[derive(Debug, Clone, PartialEq, Eq, Hash)]
pub struct StraightArmCompoundExercise {
    pub id: u32,
    pub name: String,
    pub push_or_pull: PushOrPull,
    pub dynamic_or_static: DynamicOrStatic,
    pub lever_variation: LeverVariation,
    pub grip: Grip,
    pub grip_width: GripWidth,
}

/// An upper body compound exercise with bent arms.  It may have a lever
/// variation.
#[derive(Debug, Clone, PartialEq, Eq, Hash)]
pub struct BentArmCompoundExercise {
    pub id: u32,
    pub name: String,
    pub push_or_pull: PushOrPull,
    pub dynamic_or_static: DynamicOrStatic,
    pub lever_variation: Option<LeverVariation>,
    pub grip: Grip,
    pub grip_width: GripWidth,
}

/// An upper body isolation exercise.
#[derive(Debug, Clone, PartialEq, Eq, Hash)]
pub struct UpperBodyIsolationExercise {
    pub id: u32,
    pub name: String,
    pub dynamic_or_static: DynamicOrStatic,
    pub straight_or_bent: StraightOrBentArm,
}

/// A lower body compound exercise.
#[derive(Debug, Clone, PartialEq, Eq, Hash)]
pub struct LowerBodyCompoundExercise {
    pub id: u32,
    pub name: String,
    pub dynamic_or_static: DynamicOrStatic,
    pub squat_or_hinge: SquatOrHinge,
}

/// A lower body isolation exercise.
#[derive(Debug, Clone, PartialEq, Eq, Hash)]
pub struct LowerBodyIsolationExercise {
    pub id: u32,
    pub name: String,
    pub dynamic_or_static: DynamicOrStatic,
}

/// A stored exercise whose attributes fit its kind.
#[derive(Debug, Clone, PartialEq, Eq, Hash)]
pub enum ValidExercise {
    StraightArmCompound(StraightArmCompoundExercise),
    BentArmCompound(BentArmCompoundExercise),
    UpperBodyIsolation(UpperBodyIsolationExercise),
    LowerBodyCompound(LowerBodyCompoundExercise),
    LowerBodyIsolation(LowerBodyIsolationExercise),
}

/// Why a stored exercise fits none of the five kinds.
#[derive(Debug, Clone, Copy, PartialEq, Eq, Hash, Structural)]
pub enum InvalidExercise {
    EmptyName,
    LowerWithPushPull,
    UpperWithSquatHinge,
    IsolationWithCompoundAttributes,
    MissingPushPull,
    MissingStraightBent,
    MissingGrip,
    MissingGripWidth,
    MissingLeverVariation,
    IsolationMissingStraightBent,
    MissingSquatHinge,
}

impl InvalidExercise {
    /// The sentence of the fault.
    pub open spec fn text(self) -> Seq<char> {
        match self {
            InvalidExercise::EmptyName => "Exercise name cannot be empty"@,
            InvalidExercise::LowerWithPushPull =>
                "Lower body exercises cannot have push/pull designation"@,
            InvalidExercise::UpperWithSquatHinge =>
                "Upper body exercises cannot have squat/hinge designation"@,
            InvalidExercise::IsolationWithCompoundAttributes =>
                "Isolation exercises cannot have compound-specific attributes"@,
            InvalidExercise::MissingPushPull =>
                "Upper body compound exercises require a push/pull designation"@,
            InvalidExercise::MissingStraightBent =>
                "Upper body compound exercises require a straight/bent arm designation"@,
            InvalidExercise::MissingGrip =>
                "Upper body compound exercises require a grip designation"@,
            InvalidExercise::MissingGripWidth =>
                "Upper body compound exercises require a grip width designation"@,
            InvalidExercise::MissingLeverVariation =>
                "Straight-arm compound exercises require a lever variation"@,
            InvalidExercise::IsolationMissingStraightBent =>
                "Upper body isolation exercises require a straight/bent arm designation"@,
            InvalidExercise::MissingSquatHinge =>
                "Lower body compound exercises require a squat/hinge designation"@,
        }
    }

    /// The sentence that reports the fault to the user.
    pub fn message(&self) -> (r: String)
        ensures
            r@ == self.text(),
    {
        match self {
            InvalidExercise::EmptyName => "Exercise name cannot be empty".to_owned(),
            InvalidExercise::LowerWithPushPull =>
                "Lower body exercises cannot have push/pull designation".to_owned(),
            InvalidExercise::UpperWithSquatHinge =>
                "Upper body exercises cannot have squat/hinge designation".to_owned(),
            InvalidExercise::IsolationWithCompoundAttributes =>
                "Isolation exercises cannot have compound-specific attributes".to_owned(),
            InvalidExercise::MissingPushPull =>
                "Upper body compound exercises require a push/pull designation".to_owned(),
            InvalidExercise::MissingStraightBent =>
                "Upper body compound exercises require a straight/bent arm designation".to_owned(),
            InvalidExercise::MissingGrip =>
                "Upper body compound exercises require a grip designation".to_owned(),
            InvalidExercise::MissingGripWidth =>
                "Upper body compound exercises require a grip width designation".to_owned(),
            InvalidExercise::MissingLeverVariation =>
                "Straight-arm compound exercises require a lever variation".to_owned(),
            InvalidExercise::IsolationMissingStraightBent =>
                "Upper body isolation exercises require a straight/bent arm designation".to_owned(),
            InvalidExercise::MissingSquatHinge =>
                "Lower body compound exercises require a squat/hinge designation".to_owned(),
        }
    }
}

/// Whether a result carries exactly the outcome `expected`: the same value,
/// or the sentence of the same fault.
pub open spec fn reports<T>(res: Result<T, String>, expected: Result<T, InvalidExercise>) -> bool {
    match expected {
        Ok(v) => res == Ok::<T, String>(v),
        Err(e) => res is Err && res->Err_0@ == e.text(),
    }
}

impl ExerciseLibraryEntity {
    /// The row that a request asks for, before the store has given it an id.
    pub open spec fn of_req(req: ExerciseLibraryReq) -> ExerciseLibraryEntity {
        ExerciseLibraryEntity {
            id: 0,
            name: req.name,
            push_or_pull: req.push_or_pull,
            dynamic_or_static: req.dynamic_or_static,
            straight_or_bent: req.straight_or_bent,
            squat_or_hinge: req.squat_or_hinge,
            upper_or_lower: req.upper_or_lower,
            compound_or_isolation: req.compound_or_isolation,
            lever_variation: req.lever_variation,
            grip: req.grip,
            grip_width: req.grip_width,
            description: req.description,
        }
    }

    /// The first contradiction among the attributes, if there is one.
    pub open spec fn contradiction(self) -> Option<InvalidExercise> {
        if self.name@.len() == 0 {
            Some(InvalidExercise::EmptyName)
        } else if self.upper_or_lower == UpperOrLower::Lower && self.push_or_pull is Some {
            Some(InvalidExercise::LowerWithPushPull)
        } else if self.upper_or_lower == UpperOrLower::Upper && self.squat_or_hinge is Some {
            Some(InvalidExercise::UpperWithSquatHinge)
        } else if self.compound_or_isolation == CompoundOrIsolation::Isolation && (
            self.push_or_pull is Some || self.lever_variation is Some || self.grip is Some
                || self.grip_width is Some) {
            Some(InvalidExercise::IsolationWithCompoundAttributes)
        } else {
            None
        }
    }

    /// The kind of a row without contradictions, or the first attribute that
    /// its kind requires and the row lacks.
    pub open spec fn kind(self) -> Result<ValidExercise, InvalidExercise> {
        match (self.upper_or_lower, self.compound_or_isolation) {
            (UpperOrLower::Upper, CompoundOrIsolation::Compound) => {
                if self.push_or_pull is None {
                    Err(InvalidExercise::MissingPushPull)
                } else if self.straight_or_bent is None {
                    Err(InvalidExercise::MissingStraightBent)
                } else if self.grip is None {
                    Err(InvalidExercise::MissingGrip)
                } else if self.grip_width is None {
                    Err(InvalidExercise::MissingGripWidth)
                } else if self.straight_or_bent == Some(StraightOrBentArm::Straight) {
                    if self.lever_variation is None {
                        Err(InvalidExercise::MissingLeverVariation)
                    } else {
                        Ok(
                            ValidExercise::StraightArmCompound(
                                StraightArmCompoundExercise {
                                    id: self.id,
                                    name: self.name,
                                    push_or_pull: self.push_or_pull->Some_0,
                                    dynamic_or_static: self.dynamic_or_static,
                                    lever_variation: self.lever_variation->Some_0,
                                    grip: self.grip->Some_0,
                                    grip_width: self.grip_width->Some_0,
                                },
                            ),
                        )
                    }
                } else {
                    Ok(
                        ValidExercise::BentArmCompound(
                            BentArmCompoundExercise {
                                id: self.id,
                                name: self.name,
                                push_or_pull: self.push_or_pull->Some_0,
                                dynamic_or_static: self.dynamic_or_static,
                                lever_variation: self.lever_variation,
                                grip: self.grip->Some_0,
                                grip_width: self.grip_width->Some_0,
                            },
                        ),
                    )
                }
            },
            (UpperOrLower::Upper, CompoundOrIsolation::Isolation) => {
                if self.straight_or_bent is None {
                    Err(InvalidExercise::IsolationMissingStraightBent)
                } else {
                    Ok(
                        ValidExercise::UpperBodyIsolation(
                            UpperBodyIsolationExercise {
                                id: self.id,
                                name: self.name,
                                dynamic_or_static: self.dynamic_or_static,
                                straight_or_bent: self.straight_or_bent->Some_0,
                            },
                        ),
                    )
                }
            },
            (UpperOrLower::Lower, CompoundOrIsolation::Compound) => {
                if self.squat_or_hinge is None {
                    Err(InvalidExercise::MissingSquatHinge)
                } else {
                    Ok(
                        ValidExercise::LowerBodyCompound(
                            LowerBodyCompoundExercise {
                                id: self.id,
                                name: self.name,
                                dynamic_or_static: self.dynamic_or_static,
                                squat_or_hinge: self.squat_or_hinge->Some_0,
                            },
                        ),
                    )
                }
            },
            (UpperOrLower::Lower, CompoundOrIsolation::Isolation) => Ok(
                ValidExercise::LowerBodyIsolation(
                    LowerBodyIsolationExercise {
                        id: self.id,
                        name: self.name,
                        dynamic_or_static: self.dynamic_or_static,
                    },
                ),
            ),
        }
    }

    /// What the row is: its kind, unless a contradiction comes first.
    pub open spec fn classify(self) -> Result<ValidExercise, InvalidExercise> {
        match self.contradiction() {
            Some(e) => Err(e),
            None => self.kind(),
        }
    }

    /// Rejects a row whose attributes contradict each other.
    pub fn validate_invariants(&self) -> (res: Result<(), String>)
        ensures
            match self.contradiction() {
                Some(e) => res is Err && res->Err_0@ == e.text(),
                None => res is Ok,
            },
    {
        if self.name.as_str().is_empty() {
            return Err(InvalidExercise::EmptyName.message());
        }
        if self.upper_or_lower == UpperOrLower::Lower && self.push_or_pull.is_some() {
            return Err(InvalidExercise::LowerWithPushPull.message());
        }
        if self.upper_or_lower == UpperOrLower::Upper && self.squat_or_hinge.is_some() {
            return Err(InvalidExercise::UpperWithSquatHinge.message());
        }
        if self.compound_or_isolation == CompoundOrIsolation::Isolation {
            if self.push_or_pull.is_some() || self.lever_variation.is_some() || self.grip.is_some()
                || self.grip_width.is_some() {
                return Err(InvalidExercise::IsolationWithCompoundAttributes.message());
            }
        }
        Ok(())
    }

    /// Classifies the row, or says in a sentence why it fits no kind.
    pub fn to_valid_struct(&self) -> (res: Result<ValidExercise, String>)
        ensures
            reports(res, self.classify()),
    {
        match self.validate_invariants() {
            Err(e) => {
                return Err(e);
            },
            Ok(_) => {},
        }
        match self.upper_or_lower {
            UpperOrLower::Upper => match self.compound_or_isolation {
                CompoundOrIsolation::Compound => {
                    let push_or_pull = match self.push_or_pull {
                        Some(v) => v,
                        None => {
                            return Err(InvalidExercise::MissingPushPull.message());
                        },
                    };
                    let straight_or_bent = match self.straight_or_bent {
                        Some(v) => v,
                        None => {
                            return Err(InvalidExercise::MissingStraightBent.message());
                        },
                    };
                    let grip = match self.grip {
                        Some(v) => v,
                        None => {
                            return Err(InvalidExercise::MissingGrip.message());
                        },
                    };
                    let grip_width = match self.grip_width {
                        Some(v) => v,
                        None => {
                            return Err(InvalidExercise::MissingGripWidth.message());
                        },
                    };
                    match straight_or_bent {
                        StraightOrBentArm::Straight => {
                            let lever_variation = match self.lever_variation {
                                Some(v) => v,
                                None => {
                                    return Err(InvalidExercise::MissingLeverVariation.message());
                                },
                            };
                            Ok(
                                ValidExercise::StraightArmCompound(
                                    StraightArmCompoundExercise {
                                        id: self.id,
                                        name: self.name.clone(),
                                        push_or_pull,
                                        dynamic_or_static: self.dynamic_or_static,
                                        lever_variation,
                                        grip,
                                        grip_width,
                                    },
                                ),
                            )
                        },
                        StraightOrBentArm::Bent => Ok(
                            ValidExercise::BentArmCompound(
                                BentArmCompoundExercise {
                                    id: self.id,
                                    name: self.name.clone(),
                                    push_or_pull,
                                    dynamic_or_static: self.dynamic_or_static,
                                    lever_variation: self.lever_variation,
                                    grip,
                                    grip_width,
                                },
                            ),
                        ),
                    }
                },
                CompoundOrIsolation::Isolation => {
                    let straight_or_bent = match self.straight_or_bent {
                        Some(v) => v,
                        None => {
                            return Err(InvalidExercise::IsolationMissingStraightBent.message());
                        },
                    };
                    Ok(
                        ValidExercise::UpperBodyIsolation(
                            UpperBodyIsolationExercise {
                                id: self.id,
                                name: self.name.clone(),
                                dynamic_or_static: self.dynamic_or_static,
                                straight_or_bent,
                            },
                        ),
                    )
                },
            },
            UpperOrLower::Lower => match self.compound_or_isolation {
                CompoundOrIsolation::Compound => {
                    let squat_or_hinge = match self.squat_or_hinge {
                        Some(v) => v,
                        None => {
                            return Err(InvalidExercise::MissingSquatHinge.message());
                        },
                    };
                    Ok(
                        ValidExercise::LowerBodyCompound(
                            LowerBodyCompoundExercise {
                                id: self.id,
                                name: self.name.clone(),
                                dynamic_or_static: self.dynamic_or_static,
                                squat_or_hinge,
                            },
                        ),
                    )
                },
                CompoundOrIsolation::Isolation => Ok(
                    ValidExercise::LowerBodyIsolation(
                        LowerBodyIsolationExercise {
                            id: self.id,
                            name: self.name.clone(),
                            dynamic_or_static: self.dynamic_or_static,
                        },
                    ),
                ),
            },
        }
    }

    /// The row for a request, with id 0 for the store to replace, provided
    /// that the row classifies; otherwise the sentence of its fault.
    pub fn from_req(req: ExerciseLibraryReq) -> (res: Result<ExerciseLibraryEntity, String>)
        ensures
            match Self::of_req(req).classify() {
                Ok(_) => res == Ok::<ExerciseLibraryEntity, String>(Self::of_req(req)),
                Err(e) => res is Err && res->Err_0@ == e.text(),
            },
    {
        let entity = ExerciseLibraryEntity {
            id: 0,
            name: req.name,
            push_or_pull: req.push_or_pull,
            dynamic_or_static: req.dynamic_or_static,
            straight_or_bent: req.straight_or_bent,
            squat_or_hinge: req.squat_or_hinge,
            upper_or_lower: req.upper_or_lower,
            compound_or_isolation: req.compound_or_isolation,
            lever_variation: req.lever_variation,
            grip: req.grip,
            grip_width: req.grip_width,
            description: req.description,
        };
        match entity.to_valid_struct() {
            Err(e) => Err(e),
            Ok(_) => Ok(entity),
        }
    }
}

/// An exercise as a list shows it.
#[derive(Debug, Clone, PartialEq, Eq, Hash)]
pub struct ExerciseLibraryRes {
    pub id: u32,
    pub name: String,
    pub push_or_pull: Option<PushOrPull>,
    pub dynamic_or_static: DynamicOrStatic,
    pub straight_or_bent: Option<StraightOrBentArm>,
    pub squat_or_hinge: Option<SquatOrHinge>,
    pub upper_or_lower: UpperOrLower,
    pub compound_or_isolation: CompoundOrIsolation,
    pub lever_variation: Option<LeverVariation>,
    pub grip: Option<Grip>,
    pub grip_width: Option<GripWidth>,
    pub description: Option<String>,
}

impl HasId for ExerciseLibraryRes {
    open spec fn spec_id(&self) -> u32 {
        self.id
    }

    fn id(&self) -> (r: u32) {
        self.id
    }
}

/// The cell of a value of a vocabulary that may be missing.
pub open spec fn vocabulary_cell<E: Stored>(value: Option<E>) -> CellValue {
    match value {
        Some(v) => CellValue::Text(v.spec_name()),
        None => CellValue::Null,
    }
}

/// The cell of a text that may be missing.
pub open spec fn text_cell(value: Option<String>) -> CellValue {
    match value {
        Some(t) => CellValue::Text(t@),
        None => CellValue::Null,
    }
}

fn cell_of<'a, E: Stored>(value: &'a Option<E>) -> (c: Cell<'a>)
    ensures
        c@ == vocabulary_cell(*value),
{
    match value {
        Some(v) => Cell::Text(v.name()),
        None => Cell::Null,
    }
}

/// Builds `text_cell`.
pub fn cell_of_text<'a>(value: &'a Option<String>) -> (c: Cell<'a>)
    ensures
        c@ == text_cell(*value),
{
    match value {
        Some(t) => Cell::Text(t.as_str()),
        None => Cell::Null,
    }
}

impl Record for ExerciseLibraryRes {
    open spec fn spec_cell(&self, column: Column) -> CellValue {
        match column {
            Column::Name => CellValue::Text(self.name@),
            Column::Description => text_cell(self.description),
            Column::PushOrPull => vocabulary_cell(self.push_or_pull),
            Column::DynamicOrStatic => CellValue::Text(self.dynamic_or_static.spec_name()),
            Column::StraightOrBent => vocabulary_cell(self.straight_or_bent),
            Column::SquatOrHinge => vocabulary_cell(self.squat_or_hinge),
            Column::UpperOrLower => CellValue::Text(self.upper_or_lower.spec_name()),
            Column::CompoundOrIsolation => CellValue::Text(self.compound_or_isolation.spec_name()),
            Column::LeverVariation => vocabulary_cell(self.lever_variation),
            Column::Grip => vocabulary_cell(self.grip),
            Column::GripWidth => vocabulary_cell(self.grip_width),
            Column::Notes => CellValue::Null,
            Column::Active => CellValue::Null,
            Column::Date => CellValue::Null,
        }
    }

    fn cell(&self, column: Column) -> (c: Cell<'_>) {
        match column {
            Column::Name => Cell::Text(self.name.as_str()),
            Column::Description => cell_of_text(&self.description),
            Column::PushOrPull => cell_of(&self.push_or_pull),
            Column::DynamicOrStatic => Cell::Text(self.dynamic_or_static.name()),
            Column::StraightOrBent => cell_of(&self.straight_or_bent),
            Column::SquatOrHinge => cell_of(&self.squat_or_hinge),
            Column::UpperOrLower => Cell::Text(self.upper_or_lower.name()),
            Column::CompoundOrIsolation => Cell::Text(self.compound_or_isolation.name()),
            Column::LeverVariation => cell_of(&self.lever_variation),
            Column::Grip => cell_of(&self.grip),
            Column::GripWidth => cell_of(&self.grip_width),
            Column::Notes => Cell::Null,
            Column::Active => Cell::Null,
            Column::Date => Cell::Null,
        }
    }
}

/// What a list of exercises is narrowed by.  Every field is optional; a
/// choice among no values narrows as little as no choice.
#[derive(Debug, Clone)]
pub struct ExerciseLibraryFilterReq {
    pub name: Option<String>,
    pub push_or_pull: Option<Vec<PushOrPull>>,
    pub dynamic_or_static: Option<Vec<DynamicOrStatic>>,
    pub straight_or_bent: Option<Vec<StraightOrBentArm>>,
    pub squat_or_hinge: Option<Vec<SquatOrHinge>>,
    pub upper_or_lower: Option<Vec<UpperOrLower>>,
    pub compound_or_isolation: Option<Vec<CompoundOrIsolation>>,
    pub lever_variation: Option<Vec<LeverVariation>>,
    pub grip: Option<Vec<Grip>>,
    pub grip_width: Option<Vec<GripWidth>>,
}

impl Default for ExerciseLibraryFilterReq {
    fn default() -> (filter: Self)
        ensures
            filter.clauses() == Seq::<Clause>::empty(),
            filter.name is None,
            filter.push_or_pull is None,
            filter.dynamic_or_static is None,
            filter.straight_or_bent is None,
            filter.squat_or_hinge is None,
            filter.upper_or_lower is None,
            filter.compound_or_isolation is None,
            filter.lever_variation is None,
            filter.grip is None,
            filter.grip_width is None,
    {
        let filter = ExerciseLibraryFilterReq {
            name: None,
            push_or_pull: None,
            dynamic_or_static: None,
            straight_or_bent: None,
            squat_or_hinge: None,
            upper_or_lower: None,
            compound_or_isolation: None,
            lever_variation: None,
            grip: None,
            grip_width: None,
        };
        assert(filter.clauses() =~= Seq::<Clause>::empty());
        filter
    }
}

impl ExerciseLibraryReq {
    /// Whether the request is the one that an empty form stands for: a
    /// dynamic upper body compound exercise without a name and without
    /// any optional attribute.
    pub open spec fn is_empty_form(self) -> bool {
        &&& self.name@ == Seq::<char>::empty()
        &&& self.push_or_pull is None
        &&& self.dynamic_or_static == DynamicOrStatic::Dynamic
        &&& self.straight_or_bent is None
        &&& self.squat_or_hinge is None
        &&& self.upper_or_lower == UpperOrLower::Upper
        &&& self.compound_or_isolation == CompoundOrIsolation::Compound
        &&& self.lever_variation is None
        &&& self.grip is None
        &&& self.grip_width is None
        &&& self.description is None
    }
}

impl ExerciseLibraryFilterReq {
    /// Whether no field of the filter is set.
    pub open spec fn is_unset(&self) -> bool {
        &&& self.name is None
        &&& self.push_or_pull is None
        &&& self.dynamic_or_static is None
        &&& self.straight_or_bent is None
        &&& self.squat_or_hinge is None
        &&& self.upper_or_lower is None
        &&& self.compound_or_isolation is None
        &&& self.lever_variation is None
        &&& self.grip is None
        &&& self.grip_width is None
    }

    /// The conjunction that the filter stands for: one clause for each
    /// field that constrains, in the order of the fields.
    pub open spec fn clauses(&self) -> Seq<Clause> {
        text_clause(Column::Name, option_text(self.name)) + choice_clause(self.push_or_pull)
            + choice_clause(self.dynamic_or_static) + choice_clause(self.straight_or_bent)
            + choice_clause(self.squat_or_hinge) + choice_clause(self.upper_or_lower)
            + choice_clause(self.compound_or_isolation) + choice_clause(self.lever_variation)
            + choice_clause(self.grip) + choice_clause(self.grip_width)
    }

    /// Compiles the filter into its conjunction.
    pub fn to_predicate(&self) -> (predicate: Predicate)
        ensures
            predicate@ == self.clauses(),
            all_well_formed(predicate@),
    {
        let mut predicate = Predicate::new();
        predicate.and_contains(Column::Name, &self.name);
        predicate.and_among(&self.push_or_pull);
        predicate.and_among(&self.dynamic_or_static);
        predicate.and_among(&self.straight_or_bent);
        predicate.and_among(&self.squat_or_hinge);
        predicate.and_among(&self.upper_or_lower);
        predicate.and_among(&self.compound_or_isolation);
        predicate.and_among(&self.lever_variation);
        predicate.and_among(&self.grip);
        predicate.and_among(&self.grip_width);
        assert(predicate@ =~= self.clauses());
        predicate
    }
}

/// Emptiness of a choice: filters that differ only in that one holds the
/// choice among no values where the other holds no choice stand for the
/// same conjunction, and so for the same statement and the same pages.
pub proof fn lemma_empty_choice_filters_alike(
    left: ExerciseLibraryFilterReq,
    right: ExerciseLibraryFilterReq,
)
    requires
        option_text(left.name) == option_text(right.name),
        same_choice(left.push_or_pull, right.push_or_pull),
        same_choice(left.dynamic_or_static, right.dynamic_or_static),
        same_choice(left.straight_or_bent, right.straight_or_bent),
        same_choice(left.squat_or_hinge, right.squat_or_hinge),
        same_choice(left.upper_or_lower, right.upper_or_lower),
        same_choice(left.compound_or_isolation, right.compound_or_isolation),
        same_choice(left.lever_variation, right.lever_variation),
        same_choice(left.grip, right.grip),
        same_choice(left.grip_width, right.grip_width),
    ensures
        left.clauses() == right.clauses(),
        clauses_sql(left.clauses()) == clauses_sql(right.clauses()),
        clauses_binds(left.clauses()) == clauses_binds(right.clauses()),
        forall|store: Seq<ExerciseLibraryRes>, params: PaginationParams|
            crate::store::page_of(store, crate::store::accepting(left.clauses()), params)
                == crate::store::page_of(
                store,
                crate::store::accepting(right.clauses()),
                params,
            ),
{
    lemma_same_choice_same_clause(left.push_or_pull, right.push_or_pull);
    lemma_same_choice_same_clause(left.dynamic_or_static, right.dynamic_or_static);
    lemma_same_choice_same_clause(left.straight_or_bent, right.straight_or_bent);
    lemma_same_choice_same_clause(left.squat_or_hinge, right.squat_or_hinge);
    lemma_same_choice_same_clause(left.upper_or_lower, right.upper_or_lower);
    lemma_same_choice_same_clause(left.compound_or_isolation, right.compound_or_isolation);
    lemma_same_choice_same_clause(left.lever_variation, right.lever_variation);
    lemma_same_choice_same_clause(left.grip, right.grip);
    lemma_same_choice_same_clause(left.grip_width, right.grip_width);
}

/// The conjunction of a filter that may be missing: none narrows nothing.
pub open spec fn filter_clauses(filter_req: Option<ExerciseLibraryFilterReq>) -> Seq<Clause> {
    match filter_req {
        Some(filter) => filter.clauses(),
        None => Seq::empty(),
    }
}

/// The statements and pages of the exercise library.
#[derive(Debug, Clone, Copy)]
pub struct ExerciseRepo {}

impl ExerciseRepo {
    /// A handle on the statements; it holds nothing.
    pub fn new() -> (repo: Self)
        ensures
            repo == (ExerciseRepo {  }),
    {
        ExerciseRepo {  }
    }

    /// Appends the conjunction of the filter to a statement.
    pub fn pagination_filters(
        &self,
        filter_req: &Option<ExerciseLibraryFilterReq>,
        qb: &mut SqlBuilder<'_>,
    )
        ensures
            query_text(*final(qb)) == query_text(*old(qb)) + clauses_sql(
                filter_clauses(*filter_req),
            ),
            query_binds(*final(qb)) == query_binds(*old(qb)) + clauses_binds(
                filter_clauses(*filter_req),
            ),
    {
        match filter_req {
            Some(filter) => {
                let predicate = filter.to_predicate();
                push_predicate(qb, &predicate);
            },
            None => {
                assert(query_text(*qb) =~= query_text(*old(qb)) + clauses_sql(
                    filter_clauses(*filter_req),
                ));
                assert(query_binds(*qb) =~= query_binds(*old(qb)) + clauses_binds(
                    filter_clauses(*filter_req),
                ));
            },
        }
    }

    /// The statement that fetches the window of exercises for a request,
    /// or the fault of the request.
    pub fn page_query<'a>(
        &self,
        filter_req: &Option<ExerciseLibraryFilterReq>,
        params: &PaginationParams,
    ) -> (res: Result<SqlBuilder<'a>, InvalidParams>)
        ensures
            match params.check_spec() {
                Ok(_) => res is Ok && query_text(res->Ok_0)
                    == "SELECT * FROM exercise_library WHERE 1=1"@ + clauses_sql(
                    filter_clauses(*filter_req),
                ) + keyset_sql(*params) && query_binds(res->Ok_0) == clauses_binds(
                    filter_clauses(*filter_req),
                ) + keyset_binds(*params),
                Err(e) => res is Err && res->Err_0 == e,
            },
    {
        let predicate = match filter_req {
            Some(filter) => filter.to_predicate(),
            None => Predicate::new(),
        };
        page_query("SELECT * FROM exercise_library WHERE 1=1", &predicate, params)
    }

    /// The page of exercises that the fetched window yields.  Its items
    /// rise in identifier if the store returned the window in the order
    /// of the walk.
    pub fn page(&self, params: &PaginationParams, rows: Vec<ExerciseLibraryRes>) -> (page:
        PaginationRes<ExerciseLibraryRes>)
        ensures
            page.items@ == page_items(*params, rows@),
            page.next_cursor == page_cursors(*params, rows@).next_cursor,
            page.prev_cursor == page_cursors(*params, rows@).prev_cursor,
            in_fetch_order(*params, rows@) ==> ascending(page.items@),
    {
        page_from_rows(params, rows)
    }
}

impl ValidExercise {
    /// The identifier of the exercise, whatever its kind.
    pub open spec fn spec_id(self) -> u32 {
        match self {
            ValidExercise::StraightArmCompound(x) => x.id,
            ValidExercise::BentArmCompound(x) => x.id,
            ValidExercise::UpperBodyIsolation(x) => x.id,
            ValidExercise::LowerBodyCompound(x) => x.id,
            ValidExercise::LowerBodyIsolation(x) => x.id,
        }
    }

    /// The name of the exercise, whatever its kind.
    pub open spec fn spec_name(self) -> String {
        match self {
            ValidExercise::StraightArmCompound(x) => x.name,
            ValidExercise::BentArmCompound(x) => x.name,
            ValidExercise::UpperBodyIsolation(x) => x.name,
            ValidExercise::LowerBodyCompound(x) => x.name,
            ValidExercise::LowerBodyIsolation(x) => x.name,
        }
    }

    /// The stored row of the exercise: each attribute that its kind has,
    /// and none of the others.  The row carries no description.
    pub open spec fn entity(self) -> ExerciseLibraryEntity {
        match self {
            ValidExercise::StraightArmCompound(x) => ExerciseLibraryEntity {
                id: x.id,
                name: x.name,
                push_or_pull: Some(x.push_or_pull),
                dynamic_or_static: x.dynamic_or_static,
                straight_or_bent: Some(StraightOrBentArm::Straight),
                squat_or_hinge: None,
                upper_or_lower: UpperOrLower::Upper,
                compound_or_isolation: CompoundOrIsolation::Compound,
                lever_variation: Some(x.lever_variation),
                grip: Some(x.grip),
                grip_width: Some(x.grip_width),
                description: None,
            },
            ValidExercise::BentArmCompound(x) => ExerciseLibraryEntity {
                id: x.id,
                name: x.name,
                push_or_pull: Some(x.push_or_pull),
                dynamic_or_static: x.dynamic_or_static,
                straight_or_bent: Some(StraightOrBentArm::Bent),
                squat_or_hinge: None,
                upper_or_lower: UpperOrLower::Upper,
                compound_or_isolation: CompoundOrIsolation::Compound,
                lever_variation: x.lever_variation,
                grip: Some(x.grip),
                grip_width: Some(x.grip_width),
                description: None,
            },
            ValidExercise::UpperBodyIsolation(x) => ExerciseLibraryEntity {
                id: x.id,
                name: x.name,
                push_or_pull: None,
                dynamic_or_static: x.dynamic_or_static,
                straight_or_bent: Some(x.straight_or_bent),
                squat_or_hinge: None,
                upper_or_lower: UpperOrLower::Upper,
                compound_or_isolation: CompoundOrIsolation::Isolation,
                lever_variation: None,
                grip: None,
                grip_width: None,
                description: None,
            },
            ValidExercise::LowerBodyCompound(x) => ExerciseLibraryEntity {
                id: x.id,
                name: x.name,
                push_or_pull: None,
                dynamic_or_static: x.dynamic_or_static,
                straight_or_bent: None,
                squat_or_hinge: Some(x.squat_or_hinge),
                upper_or_lower: UpperOrLower::Lower,
                compound_or_isolation: CompoundOrIsolation::Compound,
                lever_variation: None,
                grip: None,
                grip_width: None,
                description: None,
            },
            ValidExercise::LowerBodyIsolation(x) => ExerciseLibraryEntity {
                id: x.id,
                name: x.name,
                push_or_pull: None,
                dynamic_or_static: x.dynamic_or_static,
                straight_or_bent: None,
                squat_or_hinge: None,
                upper_or_lower: UpperOrLower::Lower,
                compound_or_isolation: CompoundOrIsolation::Isolation,
                lever_variation: None,
                grip: None,
                grip_width: None,
                description: None,
            },
        }
    }

    /// The request that would create the exercise anew.
    pub open spec fn req(self) -> ExerciseLibraryReq {
        let e = self.entity();
        ExerciseLibraryReq {
            name: e.name,
            push_or_pull: e.push_or_pull,
            dynamic_or_static: e.dynamic_or_static,
            straight_or_bent: e.straight_or_bent,
            squat_or_hinge: e.squat_or_hinge,
            upper_or_lower: e.upper_or_lower,
            compound_or_isolation: e.compound_or_isolation,
            lever_variation: e.lever_variation,
            grip: e.grip,
            grip_width: e.grip_width,
            description: None,
        }
    }

    /// Builds `entity`: the values that an update writes to the store.
    pub fn to_entity(&self) -> (e: ExerciseLibraryEntity)
        ensures
            e == self.entity(),
    {
        match self {
            ValidExercise::StraightArmCompound(x) => ExerciseLibraryEntity {
                id: x.id,
                name: x.name.clone(),
                push_or_pull: Some(x.push_or_pull),
                dynamic_or_static: x.dynamic_or_static,
                straight_or_bent: Some(StraightOrBentArm::Straight),
                squat_or_hinge: None,
                upper_or_lower: UpperOrLower::Upper,
                compound_or_isolation: CompoundOrIsolation::Compound,
                lever_variation: Some(x.lever_variation),
                grip: Some(x.grip),
                grip_width: Some(x.grip_width),
                description: None,
            },
            ValidExercise::BentArmCompound(x) => ExerciseLibraryEntity {
                id: x.id,
                name: x.name.clone(),
                push_or_pull: Some(x.push_or_pull),
                dynamic_or_static: x.dynamic_or_static,
                straight_or_bent: Some(StraightOrBentArm::Bent),
                squat_or_hinge: None,
                upper_or_lower: UpperOrLower::Upper,
                compound_or_isolation: CompoundOrIsolation::Compound,
                lever_variation: x.lever_variation,
                grip: Some(x.grip),
                grip_width: Some(x.grip_width),
                description: None,
            },
            ValidExercise::UpperBodyIsolation(x) => ExerciseLibraryEntity {
                id: x.id,
                name: x.name.clone(),
                push_or_pull: None,
                dynamic_or_static: x.dynamic_or_static,
                straight_or_bent: Some(x.straight_or_bent),
                squat_or_hinge: None,
                upper_or_lower: UpperOrLower::Upper,
                compound_or_isolation: CompoundOrIsolation::Isolation,
                lever_variation: None,
                grip: None,
                grip_width: None,
                description: None,
            },
            ValidExercise::LowerBodyCompound(x) => ExerciseLibraryEntity {
                id: x.id,
                name: x.name.clone(),
                push_or_pull: None,
                dynamic_or_static: x.dynamic_or_static,
                straight_or_bent: None,
                squat_or_hinge: Some(x.squat_or_hinge),
                upper_or_lower: UpperOrLower::Lower,
                compound_or_isolation: CompoundOrIsolation::Compound,
                lever_variation: None,
                grip: None,
                grip_width: None,
                description: None,
            },
            ValidExercise::LowerBodyIsolation(x) => ExerciseLibraryEntity {
                id: x.id,
                name: x.name.clone(),
                push_or_pull: None,
                dynamic_or_static: x.dynamic_or_static,
                straight_or_bent: None,
                squat_or_hinge: None,
                upper_or_lower: UpperOrLower::Lower,
                compound_or_isolation: CompoundOrIsolation::Isolation,
                lever_variation: None,
                grip: None,
                grip_width: None,
                description: None,
            },
        }
    }
}

/// The row of a classified exercise classifies as that exercise again,
/// provided that the exercise has a name.
pub proof fn lemma_entity_classifies(exercise: ValidExercise)
    requires
        exercise.spec_name()@.len() > 0,
    ensures
        exercise.entity().classify() == Ok::<ValidExercise, InvalidExercise>(exercise),
{
}

/// An exercise keeps the identifier and the name of the row that it was
/// classified from, and the name is not empty.
pub proof fn lemma_classified_keeps_id_and_name(row: ExerciseLibraryEntity)
    requires
        row.classify() is Ok,
    ensures
        row.classify()->Ok_0.spec_id() == row.id,
        row.classify()->Ok_0.spec_name() == row.name,
        row.name@.len() > 0,
{
}

/// The identifier of an exercise, whatever its kind.
pub fn get_exercise_id(v: &ValidExercise) -> (id: u32)
    ensures
        id == v.spec_id(),
{
    match v {
        ValidExercise::StraightArmCompound(x) => x.id,
        ValidExercise::BentArmCompound(x) => x.id,
        ValidExercise::UpperBodyIsolation(x) => x.id,
        ValidExercise::LowerBodyCompound(x) => x.id,
        ValidExercise::LowerBodyIsolation(x) => x.id,
    }
}

/// The name of an exercise, whatever its kind.
pub fn get_exercise_name(v: &ValidExercise) -> (name: &String)
    ensures
        *name == v.spec_name(),
{
    match v {
        ValidExercise::StraightArmCompound(x) => &x.name,
        ValidExercise::BentArmCompound(x) => &x.name,
        ValidExercise::UpperBodyIsolation(x) => &x.name,
        ValidExercise::LowerBodyCompound(x) => &x.name,
        ValidExercise::LowerBodyIsolation(x) => &x.name,
    }
}

/// The request that fills a form with the attributes of an exercise.
pub fn exercise_to_req(e: &ValidExercise) -> (req: ExerciseLibraryReq)
    ensures
        req == e.req(),
{
    let row = e.to_entity();
    ExerciseLibraryReq {
        name: row.name,
        push_or_pull: row.push_or_pull,
        dynamic_or_static: row.dynamic_or_static,
        straight_or_bent: row.straight_or_bent,
        squat_or_hinge: row.squat_or_hinge,
        upper_or_lower: row.upper_or_lower,
        compound_or_isolation: row.compound_or_isolation,
        lever_variation: row.lever_variation,
        grip: row.grip,
        grip_width: row.grip_width,
        description: None,
    }
}

/// The request that an empty form stands for: a dynamic upper body
/// compound exercise without a name and without any optional attribute.
pub fn exercise_library_default_req() -> (req: ExerciseLibraryReq)
    ensures
        req.name@ == Seq::<char>::empty(),
        req.push_or_pull is None,
        req.dynamic_or_static == DynamicOrStatic::Dynamic,
        req.straight_or_bent is None,
        req.squat_or_hinge is None,
        req.upper_or_lower == UpperOrLower::Upper,
        req.compound_or_isolation == CompoundOrIsolation::Compound,
        req.lever_variation is None,
        req.grip is None,
        req.grip_width is None,
        req.description is None,
{
    ExerciseLibraryReq {
        name: String::new(),
        push_or_pull: None,
        dynamic_or_static: DynamicOrStatic::Dynamic,
        straight_or_bent: None,
        squat_or_hinge: None,
        upper_or_lower: UpperOrLower::Upper,
        compound_or_isolation: CompoundOrIsolation::Compound,
        lever_variation: None,
        grip: None,
        grip_width: None,
        description: None,
    }
}

} // verus!
