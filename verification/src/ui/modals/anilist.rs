//! The window where the user connects an AniList account with a token.

use vstd::prelude::*;
use crate::i18n::{AppLanguage, pick};
use crate::text::{
    chars_of, cut_falls_on_char, cut_on_char, ellipsize, ellipsized, find, find_chars, is_control,
    is_control_char, lemma_find_in_bounds, pop_char, push_char, slice_chars, string_of, trim, trim_chars,
    without_last,
};
use crate::ui::modals::styled::{Tone, pieces_view};

verus! {

/// The colour type of `ratatui`, carried through opaquely.
#[verifier::external_type_specification]
#[verifier::external_body]
pub struct ExColor(ratatui::style::Color);

/// The access token in what the user submitted: the text trimmed; where it
/// holds `access_token=` (a pasted redirect address), what follows that up
/// to the next `&`, trimmed.
pub open spec fn access_token_of(input: Seq<char>) -> Seq<char> {
    let raw = trim(input);
    match find(raw, "access_token="@) {
        Some(i) => {
            let after = raw.subrange(i + 13, raw.len() as int);
            let end = match find(after, "&"@) {
                Some(e) => e,
                None => after.len() as int,
            };
            trim(after.subrange(0, end))
        },
        None => raw,
    }
}

/// Takes the access token the user pastes or types.
pub struct AnilistModal {
    pub input_token: String,
    pub status_msg: Option<(String, ratatui::style::Color)>,
    pub is_loading: bool,
}

impl AnilistModal {
    /// An empty window.
    pub fn new() -> (r: AnilistModal)
        ensures
            r.input_token@ == Seq::<char>::empty(),
            r.status_msg is None,
            !r.is_loading,
    {
        AnilistModal { input_token: String::new(), status_msg: None, is_loading: false }
    }

    /// A typed character; control characters are ignored.
    pub fn handle_char(&mut self, c: char)
        ensures
            final(self).input_token@ == (if is_control_char(c) {
                old(self).input_token@
            } else {
                old(self).input_token@.push(c)
            }),
            final(self).status_msg == old(self).status_msg,
            final(self).is_loading == old(self).is_loading,
    {
        if !is_control(c) {
            push_char(&mut self.input_token, c);
        }
    }

    /// The token to verify once the user presses Enter: none where nothing
    /// but blanks was typed, else the access token in the input.
    pub fn submitted_token(&self) -> (r: Option<String>)
        ensures
            match r {
                Some(t) => trim(self.input_token@).len() > 0 && t@ == access_token_of(self.input_token@),
                None => trim(self.input_token@).len() == 0,
            },
    {
        let v = chars_of(self.input_token.as_str());
        let raw = trim_chars(&v);
        if raw.len() == 0 {
            return None;
        }
        let key = chars_of("access_token=");
        let amp = chars_of("&");
        proof {
            reveal_strlit("access_token=");
            reveal_strlit("&");
        }
        match find_chars(&raw, &key) {
            Some(i) => {
                proof {
                    lemma_find_in_bounds(raw@, key@);
                }
                let after = slice_chars(&raw, i + 13, raw.len());
                let end = match find_chars(&after, &amp) {
                    Some(e) => {
                        proof {
                            lemma_find_in_bounds(after@, amp@);
                        }
                        e
                    },
                    None => after.len(),
                };
                let head = slice_chars(&after, 0, end);
                let t = trim_chars(&head);
                Some(string_of(t.as_slice()))
            },
            None => Some(string_of(raw.as_slice())),
        }
    }

    /// Backspace: the last character goes.
    pub fn handle_backspace(&mut self)
        ensures
            final(self).input_token@ == without_last(old(self).input_token@),
            final(self).status_msg == old(self).status_msg,
            final(self).is_loading == old(self).is_loading,
    {
        pop_char(&mut self.input_token);
    }
}

/// What the input box shows of a token: a token of more than 60 bytes
/// shows as `...` and its last 57 bytes.
pub open spec fn token_shown(s: Seq<char>) -> Seq<char> {
    ellipsized(s, 60, 57)
}

/// Whether the last 57 bytes of a long token start on a character: the
/// box cuts a long token there.
pub open spec fn token_cut_on_char(s: Seq<char>) -> bool {
    cut_on_char(s, 60, 57)
}

/// The steps the window explains, line by line.
pub open spec fn anilist_steps_text(lang: AppLanguage) -> Seq<Seq<(Seq<char>, Tone)>> {
    seq![
        seq![
            ("1. "@, Tone::Key),
            (pick(lang, "Create an API client at "@, "Crie um cliente em "@), Tone::Plain),
            ("https://anilist.co/settings/developer"@, Tone::Link),
        ],
        seq![
            (pick(lang, "   Set "@, "   Defina a "@), Tone::Plain),
            ("Redirect URL"@, Tone::Emphasis),
            (pick(lang, " to: "@, " como: "@), Tone::Plain),
            ("https://anilist.co/api/v2/oauth/pin"@, Tone::Address),
        ],
        seq![
            ("2. "@, Tone::Key),
            (pick(lang, "Paste your AniList Access Token below:"@, "Cole seu Access Token do AniList abaixo:"@), Tone::Plain),
        ],
    ]
}

/// The keys offered at the foot of the window.
pub open spec fn anilist_hints_text(lang: AppLanguage) -> Seq<(Seq<char>, Tone)> {
    seq![
        ("[Enter] "@, Tone::Key),
        (pick(lang, "Authenticate & Save   "@, "Autenticar e Salvar   "@), Tone::Plain),
        ("[Tab] "@, Tone::Key),
        (pick(lang, "Open Browser   "@, "Abrir no Navegador   "@), Tone::Plain),
        ("[Esc] "@, Tone::Key),
        (pick(lang, "Cancel"@, "Cancelar"@), Tone::Plain),
    ]
}

fn pick_str(lang: AppLanguage, en: &'static str, pt: &'static str) -> (r: &'static str)
    ensures
        r@ == pick(lang, en@, pt@),
{
    match lang {
        AppLanguage::English => en,
        AppLanguage::Portuguese => pt,
    }
}

impl AnilistModal {
    /// The title of the window.
    pub fn title(lang: AppLanguage) -> (r: &'static str)
        ensures
            r@ == pick(lang, " ⚡ Connect AniList Account "@, " ⚡ Conectar Conta AniList "@),
    {
        pick_str(lang, " ⚡ Connect AniList Account ", " ⚡ Conectar Conta AniList ")
    }

    /// The steps the window explains, line by line.
    pub fn steps(lang: AppLanguage) -> (r: Vec<Vec<(&'static str, Tone)>>)
        ensures
            r@.map_values(|l: Vec<(&'static str, Tone)>| pieces_view(l@)) == anilist_steps_text(lang),
    {
        let r = vec![
            vec![
                ("1. ", Tone::Key),
                (pick_str(lang, "Create an API client at ", "Crie um cliente em "), Tone::Plain),
                ("https://anilist.co/settings/developer", Tone::Link),
            ],
            vec![
                (pick_str(lang, "   Set ", "   Defina a "), Tone::Plain),
                ("Redirect URL", Tone::Emphasis),
                (pick_str(lang, " to: ", " como: "), Tone::Plain),
                ("https://anilist.co/api/v2/oauth/pin", Tone::Address),
            ],
            vec![
                ("2. ", Tone::Key),
                (pick_str(lang, "Paste your AniList Access Token below:", "Cole seu Access Token do AniList abaixo:"), Tone::Plain),
            ],
        ];
        assert(pieces_view(r@[0]@) =~= anilist_steps_text(lang)[0]);
        assert(pieces_view(r@[1]@) =~= anilist_steps_text(lang)[1]);
        assert(pieces_view(r@[2]@) =~= anilist_steps_text(lang)[2]);
        assert(r@.map_values(|l: Vec<(&'static str, Tone)>| pieces_view(l@)) =~= anilist_steps_text(lang));
        r
    }

    /// The title of the input box.
    pub fn input_title(lang: AppLanguage) -> (r: &'static str)
        ensures
            r@ == pick(lang, " AniList Access Token "@, " Access Token do AniList "@),
    {
        pick_str(lang, " AniList Access Token ", " Access Token do AniList ")
    }

    /// Whether the input box can show the token: it cuts a token of more
    /// than 60 bytes 57 bytes before its end, which must fall between two
    /// characters.
    pub fn token_fits_box(&self) -> (r: bool)
        ensures
            r == token_cut_on_char(self.input_token@),
    {
        cut_falls_on_char(self.input_token.as_str(), 60, 57)
    }

    /// What the input box shows of the token.
    pub fn token_display(&self) -> (r: String)
        requires
            token_cut_on_char(self.input_token@),
        ensures
            r@ == token_shown(self.input_token@),
    {
        ellipsize(self.input_token.as_str(), 60, 57)
    }

    /// What the window says while the token is checked.
    pub fn loading_text(lang: AppLanguage) -> (r: &'static str)
        ensures
            r@ == pick(lang, "⏳ Verifying token with AniList..."@, "⏳ Verificando token com AniList..."@),
    {
        pick_str(lang, "⏳ Verifying token with AniList...", "⏳ Verificando token com AniList...")
    }

    /// The keys offered at the foot of the window.
    pub fn hints(lang: AppLanguage) -> (r: Vec<(&'static str, Tone)>)
        ensures
            pieces_view(r@) == anilist_hints_text(lang),
    {
        let r = vec![
            ("[Enter] ", Tone::Key),
            (pick_str(lang, "Authenticate & Save   ", "Autenticar e Salvar   "), Tone::Plain),
            ("[Tab] ", Tone::Key),
            (pick_str(lang, "Open Browser   ", "Abrir no Navegador   "), Tone::Plain),
            ("[Esc] ", Tone::Key),
            (pick_str(lang, "Cancel", "Cancelar"), Tone::Plain),
        ];
        assert(pieces_view(r@) =~= anilist_hints_text(lang));
        r
    }
}

} // verus!
