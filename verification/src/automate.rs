//! Names of the automation settings used by breakpoint lanes: the shape of a
//! modulation wave, the play mode of a lane and the kind of a breakpoint.

use vstd::prelude::*;
use crate::text::{lowercase, to_lowercase, str_eq, concat3};

verus! {

/// Wave shape applied by a wave breakpoint.
#[derive(Clone, Copy, Debug, PartialEq, Eq, Structural)]
pub enum Shape {
    Sine,
    Triangle,
    Square,
}

/// Whether a lane plays once or loops.
#[derive(Clone, Copy, Debug, PartialEq, Eq, Structural)]
pub enum Mode {
    Loop,
    Once,
}

/// The shape named by an already lowercased name.
pub open spec fn shape_named(lower: Seq<char>) -> Option<Shape> {
    if lower == "sine"@ {
        Some(Shape::Sine)
    } else if lower == "triangle"@ {
        Some(Shape::Triangle)
    } else if lower == "square"@ {
        Some(Shape::Square)
    } else {
        None
    }
}

/// The mode named by an already lowercased name.
pub open spec fn mode_named(lower: Seq<char>) -> Option<Mode> {
    if lower == "loop"@ {
        Some(Mode::Loop)
    } else if lower == "once"@ {
        Some(Mode::Once)
    } else {
        None
    }
}

impl Shape {
    /// Decides the shape from the name as given and its lowercase form.
    pub fn from_lowercase(name: &str, lower: &str) -> (r: Result<Shape, String>)
        ensures
            shape_named(lower@) is Some ==> r == Ok::<Shape, String>(shape_named(lower@)->0),
            shape_named(lower@) is None ==> (r is Err && r->Err_0@ == "No shape "@ + name@
                + " exists."@),
    {
        if str_eq(lower, "sine") {
            Ok(Shape::Sine)
        } else if str_eq(lower, "triangle") {
            Ok(Shape::Triangle)
        } else if str_eq(lower, "square") {
            Ok(Shape::Square)
        } else {
            Err(concat3("No shape ", name, " exists."))
        }
    }

    /// Parses a shape name, ignoring case.
    pub fn from_str(shape: &str) -> (r: Result<Shape, String>)
        ensures
            shape_named(lowercase(shape@)) is Some ==> r == Ok::<Shape, String>(
                shape_named(lowercase(shape@))->0,
            ),
            shape_named(lowercase(shape@)) is None ==> (r is Err && r->Err_0@ == "No shape "@
                + shape@ + " exists."@),
    {
        let lower = to_lowercase(shape);
        Shape::from_lowercase(shape, lower.as_str())
    }
}

impl Mode {
    /// Decides the mode from the name as given and its lowercase form.
    pub fn from_lowercase(name: &str, lower: &str) -> (r: Result<Mode, String>)
        ensures
            mode_named(lower@) is Some ==> r == Ok::<Mode, String>(mode_named(lower@)->0),
            mode_named(lower@) is None ==> (r is Err && r->Err_0@ == "No mode "@ + name@
                + " exists."@),
    {
        if str_eq(lower, "loop") {
            Ok(Mode::Loop)
        } else if str_eq(lower, "once") {
            Ok(Mode::Once)
        } else {
            Err(concat3("No mode ", name, " exists."))
        }
    }

    /// Parses a mode name, ignoring case.
    pub fn from_str(mode: &str) -> (r: Result<Mode, String>)
        ensures
            mode_named(lowercase(mode@)) is Some ==> r == Ok::<Mode, String>(
                mode_named(lowercase(mode@))->0,
            ),
            mode_named(lowercase(mode@)) is None ==> (r is Err && r->Err_0@ == "No mode "@
                + mode@ + " exists."@),
    {
        let lower = to_lowercase(mode);
        Mode::from_lowercase(mode, lower.as_str())
    }
}

/// The kind of a breakpoint, without the parameters that the kinds carry.
/// Parsing a kind by name yields the kind with its default parameters; the
/// defaults are attached where the breakpoint is built.
#[derive(Clone, Copy, Debug, PartialEq, Eq, Structural)]
pub enum KindName {
    Step,
    Ramp,
    Random,
    RandomSmooth,
    Wave,
    End,
}

/// The breakpoint kind named by an already lowercased name.
pub open spec fn kind_named(lower: Seq<char>) -> Option<KindName> {
    if lower == "step"@ {
        Some(KindName::Step)
    } else if lower == "ramp"@ {
        Some(KindName::Ramp)
    } else if lower == "random"@ {
        Some(KindName::Random)
    } else if lower == "randomsmooth"@ {
        Some(KindName::RandomSmooth)
    } else if lower == "wave"@ {
        Some(KindName::Wave)
    } else if lower == "end"@ {
        Some(KindName::End)
    } else {
        None
    }
}

impl KindName {
    /// Decides the kind from the name as given and its lowercase form.
    pub fn from_lowercase(name: &str, lower: &str) -> (r: Result<KindName, String>)
        ensures
            kind_named(lower@) is Some ==> r == Ok::<KindName, String>(kind_named(lower@)->0),
            kind_named(lower@) is None ==> (r is Err && r->Err_0@
                == "Unknown breakpoint kind variant: "@ + name@ + ""@),
    {
        if str_eq(lower, "step") {
            Ok(KindName::Step)
        } else if str_eq(lower, "ramp") {
            Ok(KindName::Ramp)
        } else if str_eq(lower, "random") {
            Ok(KindName::Random)
        } else if str_eq(lower, "randomsmooth") {
            Ok(KindName::RandomSmooth)
        } else if str_eq(lower, "wave") {
            Ok(KindName::Wave)
        } else if str_eq(lower, "end") {
            Ok(KindName::End)
        } else {
            Err(concat3("Unknown breakpoint kind variant: ", name, ""))
        }
    }

    /// Parses a breakpoint kind name, ignoring case.
    pub fn from_str(s: &str) -> (r: Result<KindName, String>)
        ensures
            kind_named(lowercase(s@)) is Some ==> r == Ok::<KindName, String>(
                kind_named(lowercase(s@))->0,
            ),
            kind_named(lowercase(s@)) is None ==> (r is Err && r->Err_0@
                == "Unknown breakpoint kind variant: "@ + s@ + ""@),
    {
        let lower = to_lowercase(s);
        KindName::from_lowercase(s, lower.as_str())
    }
}

impl std::str::FromStr for Shape {
    type Err = String;

    fn from_str(s: &str) -> (r: Result<Shape, String>)
        ensures
            shape_named(lowercase(s@)) is Some ==> r == Ok::<Shape, String>(
                shape_named(lowercase(s@))->0,
            ),
            shape_named(lowercase(s@)) is None ==> (r is Err && r->Err_0@ == "No shape "@ + s@
                + " exists."@),
    {
        Shape::from_str(s)
    }
}

impl std::str::FromStr for Mode {
    type Err = String;

    fn from_str(s: &str) -> (r: Result<Mode, String>)
        ensures
            mode_named(lowercase(s@)) is Some ==> r == Ok::<Mode, String>(
                mode_named(lowercase(s@))->0,
            ),
            mode_named(lowercase(s@)) is None ==> (r is Err && r->Err_0@ == "No mode "@ + s@
                + " exists."@),
    {
        Mode::from_str(s)
    }
}

impl std::str::FromStr for KindName {
    type Err = String;

    fn from_str(s: &str) -> (r: Result<KindName, String>)
        ensures
            kind_named(lowercase(s@)) is Some ==> r == Ok::<KindName, String>(
                kind_named(lowercase(s@))->0,
            ),
            kind_named(lowercase(s@)) is None ==> (r is Err && r->Err_0@
                == "Unknown breakpoint kind variant: "@ + s@ + ""@),
    {
        KindName::from_str(s)
    }
}

} // verus!
