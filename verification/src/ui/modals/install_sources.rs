//! The window that installs the scraper sources.

use vstd::prelude::*;
use crate::i18n::{AppLanguage, pick};
use crate::order::{is_sorted, sort_strings, string_seq};
use crate::scraper::manager::DEFAULT_REPO;
use crate::text::{dec, decimal};
use crate::ui::modals::styled::{Segments, Tone, blank, lines_view, one, pieces_view, segments_view, text};

verus! {

/// Where an installation stands.
#[derive(Debug, Clone, PartialEq, Eq)]
pub enum InstallState {
    Prompt,
    Downloading,
    Success(usize),
    Error(String),
}

/// Offers to install the scraper sources, and reports how it went.
pub struct InstallSourcesModal {
    pub state: InstallState,
}

impl InstallSourcesModal {
    /// The window, asking whether to install.
    pub fn new() -> (r: InstallSourcesModal)
        ensures
            r.state == InstallState::Prompt,
    {
        InstallSourcesModal { state: InstallState::Prompt }
    }

    /// The installation has started.
    pub fn start_install(&mut self)
        ensures
            final(self).state == InstallState::Downloading,
    {
        self.state = InstallState::Downloading;
    }

    /// The sources copied from a local clone of the scraper repository.
    /// Where there are some, the installation succeeded with them, sorted;
    /// where there are none, nothing changes and the repository is asked next.
    pub fn finish_local(&mut self, installed: Vec<String>) -> (r: Option<Vec<String>>)
        ensures
            match r {
                Some(list) => installed@.len() > 0 && is_sorted(string_seq(list@))
                    && string_seq(list@).to_multiset() == string_seq(installed@).to_multiset()
                    && final(self).state == InstallState::Success(installed@.len() as usize),
                None => installed@.len() == 0 && final(self).state == old(self).state,
            },
    {
        if installed.len() == 0 {
            return None;
        }
        let n = installed.len();
        let sorted = sort_strings(installed);
        self.state = InstallState::Success(n);
        Some(sorted)
    }

    /// The outcome of installing from the repository.
    pub fn finish_remote(&mut self, outcome: Result<Vec<String>, String>) -> (r: Result<
        Vec<String>,
        String,
    >)
        ensures
            r == outcome,
            final(self).state == (match outcome {
                Ok(list) => InstallState::Success(list@.len() as usize),
                Err(e) => InstallState::Error(e),
            }),
    {
        match outcome {
            Ok(list) => {
                self.state = InstallState::Success(list.len());
                Ok(list)
            },
            Err(e) => {
                self.state = InstallState::Error(e.clone());
                Err(e)
            },
        }
    }
}

impl Default for InstallSourcesModal {
    /// The window, asking whether to install.
    fn default() -> (r: InstallSourcesModal)
        ensures
            r.state == InstallState::Prompt,
    {
        InstallSourcesModal::new()
    }
}

/// The body of the window in each state of the installation.
pub open spec fn install_body_text(state: InstallState, lang: AppLanguage) -> Seq<
    Seq<(Seq<char>, Tone)>,
> {
    match state {
        InstallState::Prompt => seq![
            seq![(pick(lang, "neo-mangal uses external Lua scrapers to ensure resilience,"@,
                "O neo-mangal utiliza scrapers externos em Lua para garantir"@), Tone::Plain)],
            seq![(pick(lang, "faster updates, and protection against DMCA notices."@,
                "atualizações ágeis e proteção jurídica contra DMCA."@), Tone::Plain)],
            seq![],
            seq![
                (pick(lang, "Would you like to install official scrapers from "@,
                    "Deseja baixar e instalar os scrapers oficiais de "@), Tone::Plain),
                ("kalebhenrique/neo-mangal-scrapers"@, Tone::Link),
                ("?"@, Tone::Plain),
            ],
            seq![],
            seq![(pick(lang, "Includes: WeebCentral, MangaDex, MangaKakalot, Manganelo, Mangasee, etc."@,
                "Inclui: WeebCentral, MangaDex, MangaKakalot, Manganelo, Mangasee, etc."@), Tone::Muted)],
        ],
        InstallState::Downloading => seq![
            seq![],
            seq![(pick(lang, "󰑮 Downloading official scrapers from GitHub..."@,
                "󰑮 Baixando scrapers oficiais do GitHub..."@), Tone::Warning)],
            seq![],
            seq![(pick(lang, "Saving to ~/.config/neo-mangal/sources/"@,
                "Salvando em ~/.config/neo-mangal/sources/"@), Tone::Muted)],
        ],
        InstallState::Success(count) => seq![
            seq![],
            seq![(pick(lang, "󰄬 Successfully installed "@ + dec(count as nat) + " scrapers!"@,
                "󰄬 "@ + dec(count as nat) + " scrapers instalados com sucesso!"@), Tone::Success)],
            seq![],
            seq![(pick(lang, "You can now search and download manga with neo-mangal."@,
                "Agora você pode pesquisar e baixar mangás normalmente."@), Tone::Strong)],
        ],
        InstallState::Error(e) => seq![
            seq![(pick(lang, "󰀦 Failed to download scrapers:"@, "󰀦 Falha ao baixar scrapers:"@), Tone::Danger)],
            seq![(e@, Tone::Muted)],
            seq![],
            seq![(pick(lang, "You can run 'neo-mangal sources install' later via terminal."@,
                "Você pode rodar 'neo-mangal sources install' mais tarde pelo terminal."@), Tone::Plain)],
        ],
    }
}

/// The keys offered at the foot of the window in each state.
pub open spec fn install_actions_text(state: InstallState, lang: AppLanguage) -> Seq<(Seq<char>, Tone)> {
    match state {
        InstallState::Prompt => seq![
            (" [Enter] "@, Tone::Success),
            (pick(lang, "Download & Install    "@, "Baixar e Instalar    "@), Tone::Plain),
            (" [Esc] "@, Tone::Danger),
            (pick(lang, "Skip"@, "Pular"@), Tone::Plain),
        ],
        InstallState::Downloading => seq![(pick(lang, "Please wait..."@, "Aguarde..."@), Tone::Warning)],
        InstallState::Success(_) => seq![
            (" [Enter] "@, Tone::Success),
            (pick(lang, "Continue"@, "Continuar"@), Tone::Plain),
        ],
        InstallState::Error(_) => seq![
            (" [Enter / Esc] "@, Tone::Danger),
            (pick(lang, "Close"@, "Fechar"@), Tone::Plain),
        ],
    }
}

fn pick_str(lang: AppLanguage, en: &'static str, pt: &'static str) -> (r: &'static str)
    ensures
        r@ == pick(lang, en@, pt@),
{
    match lang {
        AppLanguage::English => en,
        AppLanguage::Portuguese => pt,
    }
}

impl InstallSourcesModal {
    /// The title of the window.
    pub fn title(lang: AppLanguage) -> (r: &'static str)
        ensures
            r@ == pick(lang, " 󰋩 Manga Sources Setup "@, " 󰋩 Configuração de Fontes de Mangá "@),
    {
        pick_str(lang, " 󰋩 Manga Sources Setup ", " 󰋩 Configuração de Fontes de Mangá ")
    }

    /// The heading: no scraper was found.
    pub fn header(lang: AppLanguage) -> (r: &'static str)
        ensures
            r@ == pick(lang, "No manga scrapers detected in your system"@,
                "Nenhum scraper de mangá detectado no seu sistema"@),
    {
        pick_str(lang, "No manga scrapers detected in your system", "Nenhum scraper de mangá detectado no seu sistema")
    }

    /// The body of the window, line by line, for the current state.
    pub fn body_lines(&self, lang: AppLanguage) -> (r: Vec<Segments>)
        ensures
            lines_view(r@) == install_body_text(self.state, lang),
    {
        let r = match &self.state {
            InstallState::Prompt => {
                let mut ask: Segments = Vec::new();
                ask.push((String::from_str(pick_str(lang, "Would you like to install official scrapers from ",
                    "Deseja baixar e instalar os scrapers oficiais de ")), Tone::Plain));
                ask.push((String::from_str(DEFAULT_REPO), Tone::Link));
                ask.push((String::from_str("?"), Tone::Plain));
                proof {
                    reveal_strlit("kalebhenrique/neo-mangal-scrapers");
                    assert(segments_view(ask) =~= install_body_text(self.state, lang)[3]);
                }
                vec![
                    text(pick_str(lang, "neo-mangal uses external Lua scrapers to ensure resilience,",
                        "O neo-mangal utiliza scrapers externos em Lua para garantir"), Tone::Plain),
                    text(pick_str(lang, "faster updates, and protection against DMCA notices.",
                        "atualizações ágeis e proteção jurídica contra DMCA."), Tone::Plain),
                    blank(),
                    ask,
                    blank(),
                    text(pick_str(lang, "Includes: WeebCentral, MangaDex, MangaKakalot, Manganelo, Mangasee, etc.",
                        "Inclui: WeebCentral, MangaDex, MangaKakalot, Manganelo, Mangasee, etc."), Tone::Muted),
                ]
            },
            InstallState::Downloading => vec![
                blank(),
                text(pick_str(lang, "󰑮 Downloading official scrapers from GitHub...",
                    "󰑮 Baixando scrapers oficiais do GitHub..."), Tone::Warning),
                blank(),
                text(pick_str(lang, "Saving to ~/.config/neo-mangal/sources/",
                    "Salvando em ~/.config/neo-mangal/sources/"), Tone::Muted),
            ],
            InstallState::Success(count) => {
                let n = decimal(*count as u64);
                let mut done = String::new();
                match lang {
                    AppLanguage::English => {
                        done.append("󰄬 Successfully installed ");
                        done.append(n.as_str());
                        done.append(" scrapers!");
                    },
                    AppLanguage::Portuguese => {
                        done.append("󰄬 ");
                        done.append(n.as_str());
                        done.append(" scrapers instalados com sucesso!");
                    },
                }
                vec![
                    blank(),
                    one(done, Tone::Success),
                    blank(),
                    text(pick_str(lang, "You can now search and download manga with neo-mangal.",
                        "Agora você pode pesquisar e baixar mangás normalmente."), Tone::Strong),
                ]
            },
            InstallState::Error(e) => vec![
                text(pick_str(lang, "󰀦 Failed to download scrapers:", "󰀦 Falha ao baixar scrapers:"), Tone::Danger),
                one(e.clone(), Tone::Muted),
                blank(),
                text(pick_str(lang, "You can run 'neo-mangal sources install' later via terminal.",
                    "Você pode rodar 'neo-mangal sources install' mais tarde pelo terminal."), Tone::Plain),
            ],
        };
        assert(lines_view(r@) =~~= install_body_text(self.state, lang));
        r
    }

    /// The keys offered at the foot of the window for the current state.
    pub fn actions(&self, lang: AppLanguage) -> (r: Vec<(&'static str, Tone)>)
        ensures
            pieces_view(r@) == install_actions_text(self.state, lang),
    {
        let r = match &self.state {
            InstallState::Prompt => vec![
                (" [Enter] ", Tone::Success),
                (pick_str(lang, "Download & Install    ", "Baixar e Instalar    "), Tone::Plain),
                (" [Esc] ", Tone::Danger),
                (pick_str(lang, "Skip", "Pular"), Tone::Plain),
            ],
            InstallState::Downloading => vec![(pick_str(lang, "Please wait...", "Aguarde..."), Tone::Warning)],
            InstallState::Success(_) => vec![
                (" [Enter] ", Tone::Success),
                (pick_str(lang, "Continue", "Continuar"), Tone::Plain),
            ],
            InstallState::Error(_) => vec![
                (" [Enter / Esc] ", Tone::Danger),
                (pick_str(lang, "Close", "Fechar"), Tone::Plain),
            ],
        };
        assert(pieces_view(r@) =~= install_actions_text(self.state, lang));
        r
    }
}

} // verus!
