//! What a run is to do, from how it was asked for and what is found at the
//! input and output paths.

use vstd::prelude::*;
use vstd::string::*;

verus! {

/// The conversion that was asked for.
#[derive(Clone, Copy, Debug, PartialEq, Eq, Structural)]
pub enum ConvertMode {
    /// Whatever the input calls for.
    Auto,
    /// A folder of PNG images into a container.
    ICO,
    /// A container into a folder of PNG images.
    PNG,
}

impl Default for ConvertMode {
    fn default() -> (mode: ConvertMode)
        ensures
            mode == ConvertMode::Auto,
    {
        ConvertMode::Auto
    }
}

/// What is found at the input path.
#[derive(Clone, Copy, Debug, PartialEq, Eq, Structural)]
pub struct Input {
    /// Whether it is a file.
    pub is_file: bool,
    /// Whether it is a folder.
    pub is_dir: bool,
    /// Whether its name ends in the extension of a container, `ico` in upper
    /// or lower case.
    pub ico_extension: bool,
}

/// The conversion that a run makes.
#[derive(Clone, Copy, Debug, PartialEq, Eq, Structural)]
pub enum Conversion {
    /// A folder of PNG images into a container.
    CreateIco,
    /// A container into a folder of PNG images.
    ExtractPngs,
}

/// The conversion that a run makes: the one asked for, and where none was,
/// the one that the input calls for. A file that is named as a container is
/// extracted, a folder is made into a container, and of anything else
/// nothing is made.
pub open spec fn conversion_for(mode: ConvertMode, input: Input) -> Option<Conversion> {
    match mode {
        ConvertMode::ICO => Some(Conversion::CreateIco),
        ConvertMode::PNG => Some(Conversion::ExtractPngs),
        ConvertMode::Auto => if input.is_file && input.ico_extension {
            Some(Conversion::ExtractPngs)
        } else if input.is_dir {
            Some(Conversion::CreateIco)
        } else {
            None
        },
    }
}

/// The extension of a container: `.ico`.
pub open spec fn ico_extension() -> Seq<char> {
    seq!['.', 'i', 'c', 'o']
}

/// The name of the output where none was given, from the name of the input
/// without its extension: that name for a folder of extracted images, and
/// with the extension of a container for a container.
pub open spec fn default_output(mode: ConvertMode, input: Input, stem: Seq<char>) -> Option<
    Seq<char>,
> {
    match conversion_for(mode, input) {
        Some(Conversion::CreateIco) => Some(stem + ico_extension()),
        Some(Conversion::ExtractPngs) => Some(stem),
        None => None,
    }
}

/// The kind of thing that stands in the way at the output path.
#[derive(Clone, Copy, Debug, PartialEq, Eq, Structural)]
pub enum Obstacle {
    /// A file.
    File,
    /// A folder.
    Folder,
}

/// What stands in the way of a run: a file or a folder that is there at the
/// output path, unless overwriting was asked for.
pub open spec fn obstacle_for(exists: bool, overwrite: bool, is_file: bool, is_dir: bool) -> Option<
    Obstacle,
> {
    if exists && !overwrite && is_file {
        Some(Obstacle::File)
    } else if exists && !overwrite && is_dir {
        Some(Obstacle::Folder)
    } else {
        None
    }
}

/// The conversion that a run makes.
pub fn conversion(mode: ConvertMode, input: Input) -> (made: Option<Conversion>)
    ensures
        made == conversion_for(mode, input),
{
    match mode {
        ConvertMode::ICO => Some(Conversion::CreateIco),
        ConvertMode::PNG => Some(Conversion::ExtractPngs),
        ConvertMode::Auto => {
            if input.is_file && input.ico_extension {
                Some(Conversion::ExtractPngs)
            } else if input.is_dir {
                Some(Conversion::CreateIco)
            } else {
                None
            }
        },
    }
}

/// The name of the output where none was given.
pub fn default_output_name(mode: ConvertMode, input: Input, stem: &str) -> (name: Option<String>)
    ensures
        name matches Some(text) ==> default_output(mode, input, stem@) == Some(text@),
        name is None ==> default_output(mode, input, stem@) is None,
{
    match conversion(mode, input) {
        Some(Conversion::CreateIco) => {
            proof {
                reveal_strlit(".ico");
            }
            let mut name = String::from_str(stem);
            name.append(".ico");
            Some(name)
        },
        Some(Conversion::ExtractPngs) => Some(String::from_str(stem)),
        None => None,
    }
}

/// What stands in the way of a run at the output path.
pub fn obstacle(exists: bool, overwrite: bool, is_file: bool, is_dir: bool) -> (found: Option<
    Obstacle,
>)
    ensures
        found == obstacle_for(exists, overwrite, is_file, is_dir),
{
    if exists && !overwrite {
        if is_file {
            return Some(Obstacle::File);
        } else if is_dir {
            return Some(Obstacle::Folder);
        }
    }
    None
}

/// A run makes a conversion exactly if it has an output without being given
/// one, and the output of a container ends in the extension of a container.
pub proof fn lemma_output_follows_conversion(mode: ConvertMode, input: Input, stem: Seq<char>)
    ensures
        conversion_for(mode, input) is Some <==> default_output(mode, input, stem) is Some,
        conversion_for(mode, input) == Some(Conversion::CreateIco) ==> default_output(
            mode,
            input,
            stem,
        ) == Some(stem + ico_extension()),
        conversion_for(mode, input) == Some(Conversion::ExtractPngs) ==> default_output(
            mode,
            input,
            stem,
        ) == Some(stem),
{
}

/// With overwriting asked for nothing stands in the way, and nothing does
/// where nothing is there.
pub proof fn lemma_no_obstacle(exists: bool, overwrite: bool, is_file: bool, is_dir: bool)
    ensures
        overwrite || !exists ==> obstacle_for(exists, overwrite, is_file, is_dir) is None,
{
}

} // verus!
