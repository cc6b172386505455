//! What the engine makes of a configuration script's answer for one entry.
use vstd::prelude::*;
use crate::color::Color;

verus! {

/// A configuration script failed while answering for one entry.
#[derive(Debug, Clone, PartialEq, Eq)]
pub struct EntryError {
    /// The path of the entry the script was asked about.
    pub path: String,
    /// What the script runtime reported.
    pub message: String,
}

impl View for EntryError {
    type V = (Seq<char>, Seq<char>);

    open spec fn view(&self) -> (Seq<char>, Seq<char>) {
        (self.path@, self.message@)
    }
}

/// A script's icon answer: an icon, nothing, or a failure message.
pub open spec fn icon_answer_view(a: Result<Option<String>, String>) -> Result<Option<Seq<char>>, Seq<char>> {
    match a {
        Ok(Some(s)) => Ok(Some(s@)),
        Ok(None) => Ok(None),
        Err(m) => Err(m@),
    }
}

/// The icon given for an entry: the script's icon, else the default; a
/// failure is reported with the entry's path.
pub open spec fn icon_outcome(
    path: Seq<char>,
    answer: Result<Option<Seq<char>>, Seq<char>>,
    default: Seq<char>,
) -> Result<Seq<char>, (Seq<char>, Seq<char>)> {
    match answer {
        Ok(Some(icon)) => Ok(icon),
        Ok(None) => Ok(default),
        Err(m) => Err((path, m)),
    }
}

/// The colour given for an entry: the script's colour, else the default; a
/// failure is reported with the entry's path.
pub open spec fn color_outcome(
    path: Seq<char>,
    answer: Result<Option<Color>, Seq<char>>,
    default: Option<Color>,
) -> Result<Option<Color>, (Seq<char>, Seq<char>)> {
    match answer {
        Ok(Some(c)) => Ok(Some(c)),
        Ok(None) => Ok(default),
        Err(m) => Err((path, m)),
    }
}

/// The icon for an entry, from the script's answer: the icon it returned, or
/// `default` when it returned nothing; a script failure becomes an error
/// naming the entry's path.
pub fn icon_or_default(path: &str, answer: Result<Option<String>, String>, default: &str) -> (r: Result<
    String,
    EntryError,
>)
    ensures
        match r {
            Ok(s) => icon_outcome(path@, icon_answer_view(answer), default@) == Ok::<
                Seq<char>,
                (Seq<char>, Seq<char>),
            >(s@),
            Err(e) => icon_outcome(path@, icon_answer_view(answer), default@) == Err::<
                Seq<char>,
                (Seq<char>, Seq<char>),
            >(e@),
        },
{
    match answer {
        Ok(Some(icon)) => Ok(icon),
        Ok(None) => Ok(default.to_string()),
        Err(message) => Err(EntryError { path: path.to_string(), message }),
    }
}

/// The colour for an entry, from the script's answer: the colour it returned,
/// or `default` when it returned nothing; a script failure becomes an error
/// naming the entry's path.
pub fn color_or_default(
    path: &str,
    answer: Result<Option<Color>, String>,
    default: Option<Color>,
) -> (r: Result<Option<Color>, EntryError>)
    ensures
        match r {
            Ok(c) => color_outcome(
                path@,
                match answer {
                    Ok(a) => Ok(a),
                    Err(m) => Err(m@),
                },
                default,
            ) == Ok::<Option<Color>, (Seq<char>, Seq<char>)>(c),
            Err(e) => color_outcome(
                path@,
                match answer {
                    Ok(a) => Ok(a),
                    Err(m) => Err(m@),
                },
                default,
            ) == Err::<Option<Color>, (Seq<char>, Seq<char>)>(e@),
        },
{
    match answer {
        Ok(Some(c)) => Ok(Some(c)),
        Ok(None) => Ok(default),
        Err(message) => Err(EntryError { path: path.to_string(), message }),
    }
}

/// A script that answers nothing leaves the caller's default unchanged, and a
/// script that fails yields an error for that entry's path, not a value.
pub proof fn script_answers_fall_back(
    path: Seq<char>,
    default_icon: Seq<char>,
    default_color: Option<Color>,
    message: Seq<char>,
)
    ensures
        icon_outcome(path, Ok(None), default_icon) == Ok::<Seq<char>, (Seq<char>, Seq<char>)>(
            default_icon,
        ),
        color_outcome(path, Ok(None), default_color) == Ok::<
            Option<Color>,
            (Seq<char>, Seq<char>),
        >(default_color),
        icon_outcome(path, Err(message), default_icon) == Err::<Seq<char>, (Seq<char>, Seq<char>)>(
            (path, message),
        ),
        color_outcome(path, Err(message), default_color) == Err::<
            Option<Color>,
            (Seq<char>, Seq<char>),
        >((path, message)),
{
}

} // verus!
