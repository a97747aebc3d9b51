//! What the user has configured.

use vstd::prelude::*;
use crate::events::KeyCode;
use crate::seqs::views;
use crate::text::{append_str, concat_str, text_width};

verus! {

/// The settings of the browser.
#[derive(Clone, Copy, Debug, PartialEq, Eq, Structural)]
pub struct Config {
    /// Whether the terminal's font has the glyphs that the icon module uses.
    pub nerd_fonts: bool,
}

/// The question of the first start: whether the terminal shows the glyphs.
pub const FONT_QUESTION: &'static str = "Do you want to use nerd fonts?";

/// The line below the question, with a glyph to look at.
pub const FONT_SAMPLE: &'static str = "Can you see the following character: \u{f1617}";

/// One line of a screen: where it starts and what it says.
#[derive(Debug, PartialEq, Eq)]
pub struct ScreenLine {
    pub column: u16,
    pub row: u16,
    pub text: String,
}

/// The mathematical value of a `ScreenLine`.
pub struct ScreenLineView {
    pub column: u16,
    pub row: u16,
    pub text: Seq<char>,
}

impl View for ScreenLine {
    type V = ScreenLineView;

    open spec fn view(&self) -> ScreenLineView {
        ScreenLineView { column: self.column, row: self.row, text: self.text@ }
    }
}

/// The label of a button: marked with arrows where it is the choice.
pub open spec fn button_text(label: Seq<char>, chosen: bool) -> Seq<char> {
    if chosen {
        "> "@ + label + " <"@
    } else {
        "  "@ + label + "  "@
    }
}

/// The column at which a text of `len` bytes starts so that it stands in
/// the middle of `width` columns.
pub open spec fn centered(width: u16, len: int) -> int {
    (width - len) / 2
}

/// The four lines of a question in a terminal of the given size: the
/// title two rows above the middle, the subtitle one row above it, the two
/// buttons one and two rows below it, each line centered; the buttons are
/// centered as if they were two columns wider.
pub open spec fn screen_lines(
    title: Seq<char>,
    subtitle: Seq<char>,
    yes_chosen: bool,
    width: u16,
    height: u16,
) -> Seq<ScreenLineView> {
    let middle = height / 2;
    let yes = button_text("YES"@, yes_chosen);
    let no = button_text("NO"@, !yes_chosen);
    seq![
        ScreenLineView {
            column: centered(width, text_width(title) as int) as u16,
            row: (middle - 2) as u16,
            text: title,
        },
        ScreenLineView {
            column: centered(width, text_width(subtitle) as int) as u16,
            row: (middle - 1) as u16,
            text: subtitle,
        },
        ScreenLineView {
            column: centered(width, text_width(yes) + 2) as u16,
            row: (middle + 1) as u16,
            text: yes,
        },
        ScreenLineView {
            column: centered(width, text_width(no) + 2) as u16,
            row: (middle + 2) as u16,
            text: no,
        },
    ]
}

/// Whether the four lines fit: no line is wider than the terminal, and
/// the terminal has two rows above its middle.
pub open spec fn screen_fits(
    title: Seq<char>,
    subtitle: Seq<char>,
    yes_chosen: bool,
    width: u16,
    height: u16,
) -> bool {
    &&& height >= 4
    &&& text_width(title) <= width
    &&& text_width(subtitle) <= width
    &&& text_width(button_text("YES"@, yes_chosen)) + 2 <= width
    &&& text_width(button_text("NO"@, !yes_chosen)) + 2 <= width
}

fn button_label(label: &str, chosen: bool) -> (text: String)
    ensures
        text@ == button_text(label@, chosen),
{
    if chosen {
        let mut text = concat_str("> ", label);
        append_str(&mut text, " <");
        text
    } else {
        let mut text = concat_str("  ", label);
        append_str(&mut text, "  ");
        text
    }
}

fn center(width: u16, len: usize) -> (column: Option<u16>)
    ensures
        column.is_some() == (len <= width),
        column matches Some(c) ==> c == centered(width, len as int),
{
    if len <= width as usize {
        Some(((width as usize - len) / 2) as u16)
    } else {
        None
    }
}

/// The questions of the first start, asked one after the other.
#[derive(Debug, PartialEq, Eq)]
pub struct ConfigScreen {
    pub titles: Vec<String>,
    pub subtitles: Vec<String>,
    pub index: usize,
    pub current_selection: bool,
    pub config: Config,
}

impl ConfigScreen {
    /// There is a current question, and every question has a subtitle.
    pub open spec fn wf(&self) -> bool {
        &&& self.index < self.titles.len()
        &&& self.titles.len() <= self.subtitles.len()
    }

    /// A screen that starts at the first question, with "yes" chosen and
    /// the glyphs switched on.
    pub fn new(titles: Vec<String>, subtitles: Vec<String>) -> (screen: Self)
        requires
            titles.len() >= 1,
            subtitles.len() >= titles.len(),
        ensures
            screen.wf(),
            screen.titles == titles,
            screen.subtitles == subtitles,
            screen.index == 0,
            screen.current_selection,
            screen.config.nerd_fonts,
    {
        ConfigScreen {
            titles,
            subtitles,
            index: 0,
            current_selection: true,
            config: Config { nerd_fonts: true },
        }
    }

    /// The screen that asks about the font.
    pub fn launch_config() -> (screen: Self)
        ensures
            screen.wf(),
            views(screen.titles@) == seq![FONT_QUESTION@],
            views(screen.subtitles@) == seq![FONT_SAMPLE@],
            screen.index == 0,
            screen.current_selection,
            screen.config.nerd_fonts,
    {
        let mut titles: Vec<String> = Vec::new();
        titles.push(FONT_QUESTION.to_owned());
        let mut subtitles: Vec<String> = Vec::new();
        subtitles.push(FONT_SAMPLE.to_owned());
        assert(views(titles@) =~= seq![FONT_QUESTION@]);
        assert(views(subtitles@) =~= seq![FONT_SAMPLE@]);
        Self::new(titles, subtitles)
    }

    /// Reacts to a key and says whether the screen is done. Esc ends the
    /// screen. Enter on the last question ends it too; on an earlier
    /// one it stores the choice (the first question is the one about the
    /// glyphs) and goes on to the next. Up and Down change the choice.
    pub fn handle_key(&mut self, code: KeyCode) -> (done: bool)
        requires
            old(self).wf(),
        ensures
            final(self).wf(),
            final(self).titles == old(self).titles,
            final(self).subtitles == old(self).subtitles,
            done == (code == KeyCode::Esc || (code == KeyCode::Enter && old(self).index + 1 == old(
                self,
            ).titles.len())),
            final(self).index == if code == KeyCode::Enter && !done {
                old(self).index + 1
            } else {
                old(self).index as int
            },
            final(self).current_selection == if code == KeyCode::Up || code == KeyCode::Down {
                !old(self).current_selection
            } else {
                old(self).current_selection
            },
            final(self).config.nerd_fonts == if code == KeyCode::Enter && !done && old(self).index
                == 0 {
                old(self).current_selection
            } else {
                old(self).config.nerd_fonts
            },
    {
        match code {
            KeyCode::Esc => true,
            KeyCode::Enter => {
                if self.index + 1 == self.titles.len() {
                    true
                } else {
                    if self.index == 0 {
                        self.config.nerd_fonts = self.current_selection;
                    }
                    self.index = self.index + 1;
                    false
                }
            },
            KeyCode::Up => {
                self.current_selection = !self.current_selection;
                false
            },
            KeyCode::Down => {
                self.current_selection = !self.current_selection;
                false
            },
            _ => false,
        }
    }

    /// The lines of the current question in a terminal of the given size,
    /// or `None` where they do not fit.
    pub fn display(&self, width: u16, height: u16) -> (lines: Option<Vec<ScreenLine>>)
        requires
            self.wf(),
        ensures
            lines.is_some() == screen_fits(
                self.titles[self.index as int]@,
                self.subtitles[self.index as int]@,
                self.current_selection,
                width,
                height,
            ),
            lines matches Some(list) ==> views(list@) == screen_lines(
                self.titles[self.index as int]@,
                self.subtitles[self.index as int]@,
                self.current_selection,
                width,
                height,
            ),
    {
        if height < 4 {
            return None;
        }
        let middle: u16 = height / 2;
        let title = &self.titles[self.index];
        let subtitle = &self.subtitles[self.index];
        let buttons = self.show_buttons();
        let yes = buttons.0;
        let no = buttons.1;
        if yes.as_str().len() > 0xffff || no.as_str().len() > 0xffff {
            return None;
        }
        let title_column = center(width, title.as_str().len());
        let subtitle_column = center(width, subtitle.as_str().len());
        let yes_column = center(width, yes.as_str().len() + 2);
        let no_column = center(width, no.as_str().len() + 2);
        match (title_column, subtitle_column, yes_column, no_column) {
            (Some(a), Some(b), Some(c), Some(d)) => {
                let mut list: Vec<ScreenLine> = Vec::new();
                list.push(ScreenLine { column: a, row: middle - 2, text: title.clone() });
                list.push(ScreenLine { column: b, row: middle - 1, text: subtitle.clone() });
                list.push(ScreenLine { column: c, row: middle + 1, text: yes });
                list.push(ScreenLine { column: d, row: middle + 2, text: no });
                assert(views(list@) =~= screen_lines(
                    self.titles[self.index as int]@,
                    self.subtitles[self.index as int]@,
                    self.current_selection,
                    width,
                    height,
                ));
                Some(list)
            },
            _ => None,
        }
    }

    /// The labels of the two buttons, "yes" first.
    pub fn show_buttons(&self) -> (labels: (String, String))
        ensures
            labels.0@ == button_text("YES"@, self.current_selection),
            labels.1@ == button_text("NO"@, !self.current_selection),
    {
        (button_label("YES", self.current_selection), button_label("NO", !self.current_selection))
    }
}

} // verus!
