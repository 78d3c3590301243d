//! The messages and choices that pass between the render thread and the
//! preview.
use vstd::prelude::*;

verus! {

/// What the render thread tells the preview.
#[derive(Clone, Copy, Debug, PartialEq, Eq, Structural)]
pub enum RenderStatus {
    /// A new row was published.
    Processing,
    /// Every row has been produced.
    Done,
}

/// Where finished rows go.
#[derive(Clone, Copy, Debug, PartialEq, Eq, Structural)]
pub enum RunningMode {
    /// To the image file only.
    File,
    /// To the image file and to the live preview.
    Render,
}

/// Whether `flag` is the flag that asks for file-only output.
pub open spec fn is_file_flag(flag: Seq<char>) -> bool {
    flag == "-File"@
}

/// The mode that a command line asks for: file-only when its first argument
/// after the program name is `-File`, the live preview otherwise.
pub open spec fn mode_of(args: Seq<Seq<char>>) -> RunningMode {
    if args.len() >= 2 && is_file_flag(args[1]) {
        RunningMode::File
    } else {
        RunningMode::Render
    }
}

impl RunningMode {
    /// The mode named by one flag; anything but `-File` means the preview.
    pub fn from_flag(flag: &String) -> (mode: RunningMode)
        ensures
            mode == (if is_file_flag(flag@) {
                RunningMode::File
            } else {
                RunningMode::Render
            }),
    {
        let file_flag: String = "-File".to_owned();
        if *flag == file_flag {
            RunningMode::File
        } else {
            RunningMode::Render
        }
    }

    /// The mode that the command line `args` asks for, program name first.
    pub fn from_args(args: &Vec<String>) -> (mode: RunningMode)
        ensures
            mode == mode_of(args.deep_view()),
    {
        if args.len() < 2 {
            RunningMode::Render
        } else {
            RunningMode::from_flag(&args[1])
        }
    }
}

} // verus!
