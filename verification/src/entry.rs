//! The short form of an exercise of the library: the half of the body, the
//! number of joints, and the few attributes that these two call for.  An
//! entry carries no grip and no lever, and four kinds of entry are well
//! formed.

use vstd::prelude::*;
use crate::enums::{
    CompoundOrIsolation, DynamicOrStatic, PushOrPull, SquatOrHinge, StraightOrBentArm,
    UpperOrLower,
};
use crate::exercise::{
    reports, InvalidExercise, LowerBodyCompoundExercise, LowerBodyIsolationExercise,
    UpperBodyIsolationExercise,
};

verus! {

/// An entry as it is stored: every attribute that only some kinds of entry
/// have is optional here.
#[derive(Debug, Clone, PartialEq, Eq, Hash)]
pub struct ExerciseLibraryEntryEntity {
    pub id: u32,
    pub name: String,
    pub push_or_pull: Option<PushOrPull>,
    pub dynamic_or_static: DynamicOrStatic,
    pub straight_or_bent: Option<StraightOrBentArm>,
    pub squat_or_hinge: Option<SquatOrHinge>,
    pub upper_or_lower: UpperOrLower,
    pub compound_or_isolation: CompoundOrIsolation,
}

/// What a caller supplies to create an entry; the store assigns the id.
#[derive(Debug, Clone, PartialEq, Eq, Hash)]
pub struct ExerciseLibraryEntryReq {
    pub name: String,
    pub push_or_pull: Option<PushOrPull>,
    pub dynamic_or_static: DynamicOrStatic,
    pub straight_or_bent: Option<StraightOrBentArm>,
    pub squat_or_hinge: Option<SquatOrHinge>,
    pub upper_or_lower: UpperOrLower,
    pub compound_or_isolation: CompoundOrIsolation,
}

/// An upper body compound entry.
#[derive(Debug, Clone, PartialEq, Eq, Hash)]
pub struct UpperBodyCompoundExercise {
    pub id: u32,
    pub name: String,
    pub push_or_pull: PushOrPull,
    pub dynamic_or_static: DynamicOrStatic,
    pub straight_or_bent: StraightOrBentArm,
}

/// A stored entry whose attributes fit its kind.
#[derive(Debug, Clone, PartialEq, Eq, Hash)]
pub enum ValidExercise {
    UpperBodyCompound(UpperBodyCompoundExercise),
    UpperBodyIsolation(UpperBodyIsolationExercise),
    LowerBodyCompound(LowerBodyCompoundExercise),
    LowerBodyIsolation(LowerBodyIsolationExercise),
}

impl ExerciseLibraryEntryEntity {
    /// The entry that a request asks for, before the store has given it an
    /// id.
    pub open spec fn of_req(req: ExerciseLibraryEntryReq) -> ExerciseLibraryEntryEntity {
        ExerciseLibraryEntryEntity {
            id: 0,
            name: req.name,
            push_or_pull: req.push_or_pull,
            dynamic_or_static: req.dynamic_or_static,
            straight_or_bent: req.straight_or_bent,
            squat_or_hinge: req.squat_or_hinge,
            upper_or_lower: req.upper_or_lower,
            compound_or_isolation: req.compound_or_isolation,
        }
    }

    /// The kind of the entry, or the first attribute that its kind calls
    /// for and the entry lacks.  An attribute that its kind does not call
    /// for is passed over.
    pub open spec fn classify(self) -> Result<ValidExercise, InvalidExercise> {
        match (self.upper_or_lower, self.compound_or_isolation) {
            (UpperOrLower::Upper, CompoundOrIsolation::Compound) => {
                if self.push_or_pull is None {
                    Err(InvalidExercise::MissingPushPull)
                } else if self.straight_or_bent is None {
                    Err(InvalidExercise::MissingStraightBent)
                } else {
                    Ok(
                        ValidExercise::UpperBodyCompound(
                            UpperBodyCompoundExercise {
                                id: self.id,
                                name: self.name,
                                push_or_pull: self.push_or_pull->Some_0,
                                dynamic_or_static: self.dynamic_or_static,
                                straight_or_bent: self.straight_or_bent->Some_0,
                            },
                        ),
                    )
                }
            },
            (UpperOrLower::Upper, CompoundOrIsolation::Isolation) => {
                if self.straight_or_bent is None {
                    Err(InvalidExercise::IsolationMissingStraightBent)
                } else {
                    Ok(
                        ValidExercise::UpperBodyIsolation(
                            UpperBodyIsolationExercise {
                                id: self.id,
                                name: self.name,
                                dynamic_or_static: self.dynamic_or_static,
                                straight_or_bent: self.straight_or_bent->Some_0,
                            },
                        ),
                    )
                }
            },
            (UpperOrLower::Lower, CompoundOrIsolation::Compound) => {
                if self.squat_or_hinge is None {
                    Err(InvalidExercise::MissingSquatHinge)
                } else {
                    Ok(
                        ValidExercise::LowerBodyCompound(
                            LowerBodyCompoundExercise {
                                id: self.id,
                                name: self.name,
                                dynamic_or_static: self.dynamic_or_static,
                                squat_or_hinge: self.squat_or_hinge->Some_0,
                            },
                        ),
                    )
                }
            },
            (UpperOrLower::Lower, CompoundOrIsolation::Isolation) => Ok(
                ValidExercise::LowerBodyIsolation(
                    LowerBodyIsolationExercise {
                        id: self.id,
                        name: self.name,
                        dynamic_or_static: self.dynamic_or_static,
                    },
                ),
            ),
        }
    }

    /// Classifies the entry, or says in a sentence why it fits no kind.
    pub fn to_valid_struct(&self) -> (res: Result<ValidExercise, String>)
        ensures
            reports(res, self.classify()),
    {
        match self.upper_or_lower {
            UpperOrLower::Upper => match self.compound_or_isolation {
                CompoundOrIsolation::Compound => {
                    let push_or_pull = match self.push_or_pull {
                        Some(v) => v,
                        None => {
                            return Err(InvalidExercise::MissingPushPull.message());
                        },
                    };
                    let straight_or_bent = match self.straight_or_bent {
                        Some(v) => v,
                        None => {
                            return Err(InvalidExercise::MissingStraightBent.message());
                        },
                    };
                    Ok(
                        ValidExercise::UpperBodyCompound(
                            UpperBodyCompoundExercise {
                                id: self.id,
                                name: self.name.clone(),
                                push_or_pull,
                                dynamic_or_static: self.dynamic_or_static,
                                straight_or_bent,
                            },
                        ),
                    )
                },
                CompoundOrIsolation::Isolation => {
                    let straight_or_bent = match self.straight_or_bent {
                        Some(v) => v,
                        None => {
                            return Err(InvalidExercise::IsolationMissingStraightBent.message());
                        },
                    };
                    Ok(
                        ValidExercise::UpperBodyIsolation(
                            UpperBodyIsolationExercise {
                                id: self.id,
                                name: self.name.clone(),
                                dynamic_or_static: self.dynamic_or_static,
                                straight_or_bent,
                            },
                        ),
                    )
                },
            },
            UpperOrLower::Lower => match self.compound_or_isolation {
                CompoundOrIsolation::Compound => {
                    let squat_or_hinge = match self.squat_or_hinge {
                        Some(v) => v,
                        None => {
                            return Err(InvalidExercise::MissingSquatHinge.message());
                        },
                    };
                    Ok(
                        ValidExercise::LowerBodyCompound(
                            LowerBodyCompoundExercise {
                                id: self.id,
                                name: self.name.clone(),
                                dynamic_or_static: self.dynamic_or_static,
                                squat_or_hinge,
                            },
                        ),
                    )
                },
                CompoundOrIsolation::Isolation => Ok(
                    ValidExercise::LowerBodyIsolation(
                        LowerBodyIsolationExercise {
                            id: self.id,
                            name: self.name.clone(),
                            dynamic_or_static: self.dynamic_or_static,
                        },
                    ),
                ),
            },
        }
    }

    /// The entry for a request, with id 0 for the store to replace,
    /// provided that the entry classifies; otherwise the sentence of its
    /// fault.
    pub fn from_req(req: ExerciseLibraryEntryReq) -> (res: Result<
        ExerciseLibraryEntryEntity,
        String,
    >)
        ensures
            match Self::of_req(req).classify() {
                Ok(_) => res == Ok::<ExerciseLibraryEntryEntity, String>(Self::of_req(req)),
                Err(e) => res is Err && res->Err_0@ == e.text(),
            },
    {
        let entity = ExerciseLibraryEntryEntity {
            id: 0,
            name: req.name,
            push_or_pull: req.push_or_pull,
            dynamic_or_static: req.dynamic_or_static,
            straight_or_bent: req.straight_or_bent,
            squat_or_hinge: req.squat_or_hinge,
            upper_or_lower: req.upper_or_lower,
            compound_or_isolation: req.compound_or_isolation,
        };
        match entity.to_valid_struct() {
            Err(e) => Err(e),
            Ok(_) => Ok(entity),
        }
    }
}

} // verus!
