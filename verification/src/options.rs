use vstd::prelude::*;

verus! {

/// The full configuration record for one render call: the parser/renderer
/// feature flags shared with the external CommonMark formatter, followed by
/// the options specific to this override layer.
#[derive(Debug, Clone)]
pub struct RenderOptions {
    pub alerts: bool,
    pub autolink: bool,
    pub description_lists: bool,
    pub escape: bool,
    pub escaped_char_spans: bool,
    pub figure_with_caption: bool,
    pub footnotes: bool,
    pub full_info_string: bool,
    pub gemojis: bool,
    pub gfm_quirks: bool,
    pub github_pre_lang: bool,
    pub greentext: bool,
    pub hardbreaks: bool,
    pub header_ids: Option<String>,
    pub ignore_empty_links: bool,
    pub ignore_setext: bool,
    pub math_code: bool,
    pub math_dollars: bool,
    pub multiline_block_quotes: bool,
    pub relaxed_autolinks: bool,
    pub relaxed_tasklist_character: bool,
    pub sourcepos: bool,
    pub smart: bool,
    pub spoiler: bool,
    pub strikethrough: bool,
    pub subscript: bool,
    pub superscript: bool,
    pub table: bool,
    pub tagfilter: bool,
    pub tasklist: bool,
    pub tasklist_classes: bool,
    pub underline: bool,
    pub unsafe_: bool,
    pub wikilinks_title_after_pipe: bool,
    pub wikilinks_title_before_pipe: bool,
    /// Only use the default formatter's HTML, bypassing every override.
    pub default_html: bool,
    /// Detect inapplicable task items (symbol `~`).
    pub inapplicable_tasks: bool,
    /// Detect and mark placeholder variables of the form `%{NAME}`.
    pub placeholder_detection: bool,
    pub debug: bool,
}

/// The override-specific toggles, extracted from the full option record and
/// carried through a render as its user data.
pub struct RenderUserData {
    pub default_html: bool,
    pub inapplicable_tasks: bool,
    pub placeholder_detection: bool,
    pub debug: bool,
}

impl RenderUserData {
    /// Extracts the override-specific toggles from the full option record.
    pub fn from_options(options: &RenderOptions) -> (u: RenderUserData)
        ensures
            u.default_html == options.default_html,
            u.inapplicable_tasks == options.inapplicable_tasks,
            u.placeholder_detection == options.placeholder_detection,
            u.debug == options.debug,
    {
        RenderUserData {
            default_html: options.default_html,
            inapplicable_tasks: options.inapplicable_tasks,
            placeholder_detection: options.placeholder_detection,
            debug: options.debug,
        }
    }
}

} // verus!
