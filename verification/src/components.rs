use vstd::prelude::*;

verus! {

/// The animated activity shown after a panel title: a label and the
/// animation frame to draw.
#[derive(Debug, Clone)]
pub struct TitleActivity {
    pub label: String,
    pub frame: usize,
}

/// The animation frames of a loading activity, in order: a braille cap on
/// each side of a wave of block elements.
pub open spec fn loading_frame(i: int) -> Seq<char> {
    if i == 0 {
        "⣾▉▊▋▌▍▎▏▎▍▌▋▊▉⣾ "@
    } else if i == 1 {
        "⣽▊▋▌▍▎▏▎▍▌▋▊▉▉⣽ "@
    } else if i == 2 {
        "⣻▋▌▍▎▏▎▍▌▋▊▉▉▊⣻ "@
    } else if i == 3 {
        "⢿▌▍▎▏▎▍▌▋▊▉▉▊▋⢿ "@
    } else if i == 4 {
        "⡿▍▎▏▎▍▌▋▊▉▉▊▋▌⡿ "@
    } else if i == 5 {
        "⣟▎▏▎▍▌▋▊▉▉▊▋▌▍⣟ "@
    } else if i == 6 {
        "⣯▏▎▍▌▋▊▉▉▊▋▌▍▎⣯ "@
    } else {
        "⣷▎▍▌▋▊▉▉▊▋▌▍▎▏⣷ "@
    }
}

/// How many frames the loading animation has.
pub const LOADING_FRAME_COUNT: usize = 8;

/// A character a loading frame may hold: a braille pattern, a block
/// element or a space. None of them is a letter or a digit.
pub open spec fn is_frame_symbol(c: char) -> bool {
    ||| (0x2800 <= c as int && c as int <= 0x28ff)
    ||| (0x2580 <= c as int && c as int <= 0x259f)
    ||| c == ' '
}

impl TitleActivity {
    /// A loading activity with the given label at the given frame.
    pub fn loading(label: &str, frame: usize) -> (r: TitleActivity)
        ensures
            r.label@ == label@,
            r.frame == frame,
    {
        TitleActivity { label: crate::text::owned(label), frame }
    }

    /// The frame of the animation to draw: the frames repeat in order.
    pub fn frame_label(&self) -> (r: &'static str)
        ensures
            r@ == loading_frame(self.frame as int % LOADING_FRAME_COUNT as int),
    {
        let i = self.frame % LOADING_FRAME_COUNT;
        if i == 0 {
            "⣾▉▊▋▌▍▎▏▎▍▌▋▊▉⣾ "
        } else if i == 1 {
            "⣽▊▋▌▍▎▏▎▍▌▋▊▉▉⣽ "
        } else if i == 2 {
            "⣻▋▌▍▎▏▎▍▌▋▊▉▉▊⣻ "
        } else if i == 3 {
            "⢿▌▍▎▏▎▍▌▋▊▉▉▊▋⢿ "
        } else if i == 4 {
            "⡿▍▎▏▎▍▌▋▊▉▉▊▋▌⡿ "
        } else if i == 5 {
            "⣟▎▏▎▍▌▋▊▉▉▊▋▌▍⣟ "
        } else if i == 6 {
            "⣯▏▎▍▌▋▊▉▉▊▋▌▍▎⣯ "
        } else {
            "⣷▎▍▌▋▊▉▉▊▋▌▍▎▏⣷ "
        }
    }
}

/// Every frame of the loading animation is sixteen characters wide, so a
/// title keeps its width while it animates, and holds only symbols: braille
/// patterns, block elements and a space.
pub proof fn law_loading_frames_are_symbols_of_equal_width(frame: usize)
    ensures
        loading_frame(frame as int % LOADING_FRAME_COUNT as int).len() == 16,
        forall|k: int|
            0 <= k < 16 ==> is_frame_symbol(
                #[trigger] loading_frame(frame as int % LOADING_FRAME_COUNT as int)[k],
            ),
{
    reveal_strlit("⣾▉▊▋▌▍▎▏▎▍▌▋▊▉⣾ ");
    reveal_strlit("⣽▊▋▌▍▎▏▎▍▌▋▊▉▉⣽ ");
    reveal_strlit("⣻▋▌▍▎▏▎▍▌▋▊▉▉▊⣻ ");
    reveal_strlit("⢿▌▍▎▏▎▍▌▋▊▉▉▊▋⢿ ");
    reveal_strlit("⡿▍▎▏▎▍▌▋▊▉▉▊▋▌⡿ ");
    reveal_strlit("⣟▎▏▎▍▌▋▊▉▉▊▋▌▍⣟ ");
    reveal_strlit("⣯▏▎▍▌▋▊▉▉▊▋▌▍▎⣯ ");
    reveal_strlit("⣷▎▍▌▋▊▉▉▊▋▌▍▎▏⣷ ");
}

} // verus!
