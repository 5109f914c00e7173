//! Finding and removing disposable files.
//!
//! The files are sorted into ten categories. The analysis measures every
//! category in one script; the cleanup runs one script for each category
//! that it is given and knows, in the order given, and adds up what they
//! removed. A category whose script failed, or printed what is no account
//! of a removal, is named in the result and does not stop the others.

use crate::exchange::{
    ask, ask_plan, decode, decode_plan, keeps_its_end, lemma_reply_stays, reply_at, settled, slot,
    value_view, Payload, PayloadView, Reply, ReplyView, Schema, Step, StepView,
};
use crate::models::{
    CleanResult, CleanResultView, CleanupAnalysis, CleanupAnalysisView, CleanupCategory,
    CleanupCategoryView,
};
use crate::scripts::{
    ANALYZE_CLEANUP, CLEAN_BRAVE_CACHE, CLEAN_CHROME_CACHE, CLEAN_EDGE_CACHE,
    CLEAN_FIREFOX_CACHE, CLEAN_PREFETCH, CLEAN_RECYCLE_BIN, CLEAN_TEMP_FILES, CLEAN_THUMBNAILS,
    CLEAN_WINDOWS_LOGS, CLEAN_WINDOWS_TEMP,
};
use crate::text::{
    after, all_whitespace, before, decimal, has_one, lemma_decimal_digits,
    lemma_decimal_reads_back, lemma_split_of_joined, lemma_trim_of_padded, number_or_zero,
    read_or_zero, same_text, split_in_two, trim, trimmed,
};
use vstd::prelude::*;
use vstd::string::StringExecFns;

verus! {

/// What precedes the decoder's words where an analysis is no JSON.
pub const ANALYSIS_PARSE_FAILED: &'static str = "Erro ao parsear análise: ";

/// What stands between the decoder's words and the text it was given.
pub const QUOTED_OUTPUT: &'static str = " | Output: ";

/// What precedes an output that was to tell of a removal and does not.
pub const UNREADABLE_REMOVAL: &'static str = "Resultado de limpeza não reconhecido: ";

/// What stands between a category and the failure of its script.
pub const CATEGORY_SEPARATOR: &'static str = ": ";

/// What the analysis script reports of one category; a field is absent where
/// the script could not measure it.
#[derive(Debug, Clone, Copy, PartialEq, Eq)]
pub struct RawCategory {
    pub size: Option<u64>,
    pub count: Option<u32>,
}

/// What the analysis script reports, category by category.
#[derive(Debug, Clone, Copy, PartialEq, Eq)]
pub struct RawAnalysis {
    pub temp_files: RawCategory,
    pub windows_temp: RawCategory,
    pub recycle_bin: RawCategory,
    pub chrome_cache: RawCategory,
    pub brave_cache: RawCategory,
    pub edge_cache: RawCategory,
    pub firefox_cache: RawCategory,
    pub windows_logs: RawCategory,
    pub prefetch: RawCategory,
    pub thumbnails: RawCategory,
}

/// A [`RawAnalysis`] holds no text: it is its own view.
pub type RawAnalysisView = RawAnalysis;

impl DeepView for RawAnalysis {
    type V = RawAnalysis;

    open spec fn deep_view(&self) -> RawAnalysis {
        *self
    }
}

impl RawCategory {
    /// The size in bytes; 0 where it was not measured.
    pub open spec fn bytes(self) -> u64 {
        match self.size {
            Some(size) => size,
            None => 0,
        }
    }

    /// The number of files; 0 where they were not counted.
    pub open spec fn files(self) -> u32 {
        match self.count {
            Some(count) => count,
            None => 0,
        }
    }
}

impl RawAnalysis {
    /// The bytes of all categories together.
    pub open spec fn total_bytes(self) -> int {
        self.temp_files.bytes() + self.windows_temp.bytes() + self.recycle_bin.bytes()
            + self.chrome_cache.bytes() + self.brave_cache.bytes() + self.edge_cache.bytes()
            + self.firefox_cache.bytes() + self.windows_logs.bytes() + self.prefetch.bytes()
            + self.thumbnails.bytes()
    }

    /// The files of all categories together.
    pub open spec fn total_files(self) -> int {
        self.temp_files.files() + self.windows_temp.files() + self.recycle_bin.files()
            + self.chrome_cache.files() + self.brave_cache.files() + self.edge_cache.files()
            + self.firefox_cache.files() + self.windows_logs.files() + self.prefetch.files()
            + self.thumbnails.files()
    }

    /// Whether both totals can be held in the counters of an analysis.
    pub open spec fn totals_fit(self) -> bool {
        self.total_bytes() <= u64::MAX && self.total_files() <= u32::MAX
    }

    /// Whether both totals can be held in the counters of an analysis.
    pub fn has_fitting_totals(&self) -> (r: bool)
        ensures
            r == self.totals_fit(),
    {
        let bytes: u128 = measured_bytes(&self.temp_files) as u128 + measured_bytes(
            &self.windows_temp,
        ) as u128 + measured_bytes(&self.recycle_bin) as u128 + measured_bytes(
            &self.chrome_cache,
        ) as u128 + measured_bytes(&self.brave_cache) as u128 + measured_bytes(
            &self.edge_cache,
        ) as u128 + measured_bytes(&self.firefox_cache) as u128 + measured_bytes(
            &self.windows_logs,
        ) as u128 + measured_bytes(&self.prefetch) as u128 + measured_bytes(
            &self.thumbnails,
        ) as u128;
        let files: u64 = counted_files(&self.temp_files) as u64 + counted_files(
            &self.windows_temp,
        ) as u64 + counted_files(&self.recycle_bin) as u64 + counted_files(
            &self.chrome_cache,
        ) as u64 + counted_files(&self.brave_cache) as u64 + counted_files(&self.edge_cache) as u64
            + counted_files(&self.firefox_cache) as u64 + counted_files(&self.windows_logs) as u64
            + counted_files(&self.prefetch) as u64 + counted_files(&self.thumbnails) as u64;
        bytes <= u64::MAX as u128 && files <= u32::MAX as u64
    }
}

/// The size in bytes; 0 where it was not measured.
pub fn measured_bytes(category: &RawCategory) -> (r: u64)
    ensures
        r == category.bytes(),
{
    match category.size {
        Some(size) => size,
        None => 0,
    }
}

/// The number of files; 0 where they were not counted.
pub fn counted_files(category: &RawCategory) -> (r: u32)
    ensures
        r == category.files(),
{
    match category.count {
        Some(count) => count,
        None => 0,
    }
}

/// Finds and removes disposable files.
pub struct CleanupService;

impl CleanupService {
    /// One line of an analysis.
    pub open spec fn entry(
        id: Seq<char>,
        name: Seq<char>,
        description: Seq<char>,
        icon: Seq<char>,
        raw: RawCategory,
        selected: bool,
    ) -> CleanupCategoryView {
        CleanupCategoryView {
            id,
            name,
            description,
            icon,
            size_bytes: raw.bytes(),
            file_count: raw.files(),
            selected,
        }
    }

    /// The ten categories with what was measured of each. The first seven
    /// are ticked; logs, prefetch data and thumbnails are not.
    pub open spec fn listing(raw: RawAnalysis) -> Seq<CleanupCategoryView> {
        seq![
            Self::entry(
                "temp_files"@,
                "Arquivos Temporários"@,
                "Arquivos temporários do usuário"@,
                "🗑️"@,
                raw.temp_files,
                true,
            ),
            Self::entry(
                "windows_temp"@,
                "Windows Temp"@,
                "Arquivos temporários do Windows"@,
                "🪟"@,
                raw.windows_temp,
                true,
            ),
            Self::entry(
                "recycle_bin"@,
                "Lixeira"@,
                "Itens na Lixeira do Windows"@,
                "🗑️"@,
                raw.recycle_bin,
                true,
            ),
            Self::entry(
                "chrome_cache"@,
                "Cache do Chrome"@,
                "Cache, cookies e dados do Google Chrome"@,
                "🔵"@,
                raw.chrome_cache,
                true,
            ),
            Self::entry(
                "brave_cache"@,
                "Cache do Brave"@,
                "Cache, cookies e dados do Brave Browser"@,
                "🦁"@,
                raw.brave_cache,
                true,
            ),
            Self::entry(
                "edge_cache"@,
                "Cache do Edge"@,
                "Cache, cookies e dados do Microsoft Edge"@,
                "🌊"@,
                raw.edge_cache,
                true,
            ),
            Self::entry(
                "firefox_cache"@,
                "Cache do Firefox"@,
                "Cache e dados do Mozilla Firefox"@,
                "🦊"@,
                raw.firefox_cache,
                true,
            ),
            Self::entry(
                "windows_logs"@,
                "Logs do Windows"@,
                "Arquivos de log do sistema"@,
                "📋"@,
                raw.windows_logs,
                false,
            ),
            Self::entry(
                "prefetch"@,
                "Prefetch"@,
                "Dados de pré-carregamento de apps"@,
                "⚡"@,
                raw.prefetch,
                false,
            ),
            Self::entry(
                "thumbnails"@,
                "Miniaturas"@,
                "Cache de miniaturas do Explorer"@,
                "🖼️"@,
                raw.thumbnails,
                false,
            ),
        ]
    }

    /// The bytes of all lines of an analysis together.
    pub open spec fn listed_bytes(listing: Seq<CleanupCategoryView>) -> int
        decreases listing.len(),
    {
        if listing.len() == 0 {
            0
        } else {
            Self::listed_bytes(listing.drop_last()) + listing.last().size_bytes
        }
    }

    /// The files of all lines of an analysis together.
    pub open spec fn listed_files(listing: Seq<CleanupCategoryView>) -> int
        decreases listing.len(),
    {
        if listing.len() == 0 {
            0
        } else {
            Self::listed_files(listing.drop_last()) + listing.last().file_count
        }
    }

    /// The analysis that a report of the script amounts to: the ten
    /// categories and the totals over them.
    pub open spec fn analysis_of(raw: RawAnalysis) -> CleanupAnalysisView {
        CleanupAnalysisView {
            categories: Self::listing(raw),
            total_size_bytes: raw.total_bytes() as u64,
            total_file_count: raw.total_files() as u32,
        }
    }

    /// The analysis: the analysis script is run, what it printed is decoded,
    /// and the analysis is made of the record. A failure to decode quotes
    /// what was printed.
    pub open spec fn analyze_plan(replies: Seq<ReplyView>) -> StepView<CleanupAnalysisView> {
        match ask_plan(ANALYZE_CLEANUP@, replies, 0) {
            StepView::Done(Ok(text)) => match decode_plan(
                Schema::Analysis,
                text,
                ANALYSIS_PARSE_FAILED@,
                Some(QUOTED_OUTPUT@),
                replies,
                1,
            ) {
                StepView::Done(Ok(PayloadView::Analysis(raw))) => StepView::Done(
                    Ok(Self::analysis_of(raw)),
                ),
                other => other.carry(),
            },
            other => other.carry(),
        }
    }

    /// Whether the totals of the record that was decoded, if one was, can
    /// be held in the counters of an analysis.
    pub open spec fn analysis_fits(replies: Seq<ReplyView>) -> bool {
        match reply_at(replies, 1) {
            Some(ReplyView::Decoded(Ok(PayloadView::Analysis(raw)))) => raw.totals_fit(),
            _ => true,
        }
    }

    /// What a cleanup script says it removed: the number of files and the
    /// number of bytes. The script prints the two with one bar between
    /// them, and a number that it could not measure it leaves out or
    /// writes as something else: such a number counts as 0. An output
    /// that does not hold exactly one bar is a failure that quotes it.
    pub open spec fn removed(output: Seq<char>) -> Result<(u32, u64), Seq<char>> {
        let bare = trim(output);
        if has_one(bare, '|') {
            Ok(
                (
                    number_or_zero(before(bare, '|'), u32::MAX as nat) as u32,
                    number_or_zero(after(bare, '|'), u64::MAX as nat) as u64,
                ),
            )
        } else {
            Err(UNREADABLE_REMOVAL@ + bare)
        }
    }

    /// What the reply at `at` tells of the category that it answers: what
    /// was removed, or why nothing is known to be. `None` where the reply
    /// is missing or is no output.
    pub open spec fn outcome_at(replies: Seq<ReplyView>, at: int) -> Option<
        Result<(u32, u64), Seq<char>>,
    > {
        match reply_at(replies, at) {
            Some(ReplyView::Output(Ok(output))) => Some(Self::removed(output)),
            Some(ReplyView::Output(Err(error))) => Some(Err(error)),
            _ => None,
        }
    }

    /// The cleanup of one category: its script is run, and what it removed
    /// is read from the reply at `at`. The cleanup fails where the script
    /// did, and where its output is no account of a removal.
    pub open spec fn clean_category_plan(script: Seq<char>, replies: Seq<ReplyView>, at: int)
        -> StepView<(u32, u64)> {
        match ask_plan(script, replies, at) {
            StepView::Done(Ok(output)) => StepView::Done(Self::removed(output)),
            other => other.carry(),
        }
    }

    /// The script that cleans the category `id`, for the ten that are known.
    pub open spec fn script_of(id: Seq<char>) -> Option<Seq<char>> {
        if id == "temp_files"@ {
            Some(CLEAN_TEMP_FILES@)
        } else if id == "windows_temp"@ {
            Some(CLEAN_WINDOWS_TEMP@)
        } else if id == "recycle_bin"@ {
            Some(CLEAN_RECYCLE_BIN@)
        } else if id == "chrome_cache"@ {
            Some(CLEAN_CHROME_CACHE@)
        } else if id == "brave_cache"@ {
            Some(CLEAN_BRAVE_CACHE@)
        } else if id == "edge_cache"@ {
            Some(CLEAN_EDGE_CACHE@)
        } else if id == "firefox_cache"@ {
            Some(CLEAN_FIREFOX_CACHE@)
        } else if id == "windows_logs"@ {
            Some(CLEAN_WINDOWS_LOGS@)
        } else if id == "prefetch"@ {
            Some(CLEAN_PREFETCH@)
        } else if id == "thumbnails"@ {
            Some(CLEAN_THUMBNAILS@)
        } else {
            None
        }
    }

    /// The line that tells of a category whose script failed.
    pub open spec fn complaint(category: Seq<char>, error: Seq<char>) -> Seq<char> {
        category + CATEGORY_SEPARATOR@ + error
    }

    /// The cleanup from the category at `i` on, the next reply being the one
    /// at `at`, with `deleted` files and `freed` bytes removed and `errors`
    /// met so far. A category that is not known is passed over and takes no
    /// reply. The result tells of errors only where there were any.
    pub open spec fn clean_from(
        categories: Seq<Seq<char>>,
        i: int,
        replies: Seq<ReplyView>,
        at: int,
        deleted: int,
        freed: int,
        errors: Seq<Seq<char>>,
    ) -> StepView<CleanResultView>
        decreases categories.len() - i,
    {
        if i < 0 || i >= categories.len() {
            StepView::Done(
                Ok(
                    CleanResultView {
                        files_deleted: deleted as u32,
                        size_freed_bytes: freed as u64,
                        errors: if errors.len() == 0 {
                            None
                        } else {
                            Some(errors)
                        },
                    },
                ),
            )
        } else {
            match Self::script_of(categories[i]) {
                None => Self::clean_from(categories, i + 1, replies, at, deleted, freed, errors),
                Some(script) => match Self::clean_category_plan(script, replies, at) {
                    StepView::Done(Ok(removed)) => Self::clean_from(
                        categories,
                        i + 1,
                        replies,
                        at + 1,
                        deleted + removed.0,
                        freed + removed.1,
                        errors,
                    ),
                    StepView::Done(Err(error)) => Self::clean_from(
                        categories,
                        i + 1,
                        replies,
                        at + 1,
                        deleted,
                        freed,
                        errors.push(Self::complaint(categories[i], error)),
                    ),
                    other => other.carry(),
                },
            }
        }
    }

    /// Whether the numbers that a cleanup adds up, from the category at `i`
    /// on, can be held in the counters of its result at every step.
    pub open spec fn fits_from(
        categories: Seq<Seq<char>>,
        i: int,
        replies: Seq<ReplyView>,
        at: int,
        deleted: int,
        freed: int,
    ) -> bool
        decreases categories.len() - i,
    {
        if i < 0 || i >= categories.len() {
            true
        } else {
            match Self::script_of(categories[i]) {
                None => Self::fits_from(categories, i + 1, replies, at, deleted, freed),
                Some(script) => match Self::clean_category_plan(script, replies, at) {
                    StepView::Done(Ok(removed)) => deleted + removed.0 <= u32::MAX && freed
                        + removed.1 <= u64::MAX && Self::fits_from(
                        categories,
                        i + 1,
                        replies,
                        at + 1,
                        deleted + removed.0,
                        freed + removed.1,
                    ),
                    StepView::Done(Err(_)) => Self::fits_from(
                        categories,
                        i + 1,
                        replies,
                        at + 1,
                        deleted,
                        freed,
                    ),
                    _ => true,
                },
            }
        }
    }

    /// The categories among `categories` that are known, in their order.
    pub open spec fn known(categories: Seq<Seq<char>>) -> Seq<Seq<char>>
        decreases categories.len(),
    {
        if categories.len() == 0 {
            categories
        } else if Self::script_of(categories.last()) is Some {
            Self::known(categories.drop_last()).push(categories.last())
        } else {
            Self::known(categories.drop_last())
        }
    }

    /// Whether every one of `categories` is known.
    pub open spec fn all_known(categories: Seq<Seq<char>>) -> bool {
        forall|i: int|
            0 <= i < categories.len() ==> Self::script_of(#[trigger] categories[i]) is Some
    }

    /// Whether each of the first `n` replies is the output of a script or
    /// its failure.
    pub open spec fn all_outputs(replies: Seq<ReplyView>, n: int) -> bool {
        forall|i: int|
            0 <= i < n ==> #[trigger] reply_at(replies, i) matches Some(ReplyView::Output(_))
    }

    /// The files that the scripts of the first `n` replies say they removed.
    pub open spec fn files_removed(replies: Seq<ReplyView>, n: int) -> int
        decreases n,
    {
        if n <= 0 {
            0
        } else {
            Self::files_removed(replies, n - 1) + match Self::outcome_at(replies, n - 1) {
                Some(Ok(removed)) => removed.0 as int,
                _ => 0,
            }
        }
    }

    /// The bytes that the scripts of the first `n` replies say they removed.
    pub open spec fn bytes_removed(replies: Seq<ReplyView>, n: int) -> int
        decreases n,
    {
        if n <= 0 {
            0
        } else {
            Self::bytes_removed(replies, n - 1) + match Self::outcome_at(replies, n - 1) {
                Some(Ok(removed)) => removed.1 as int,
                _ => 0,
            }
        }
    }

    /// One line for each of the first `n` categories of which nothing is
    /// known to be removed, the reply at a position being that to the
    /// category at the position.
    pub open spec fn complaints(categories: Seq<Seq<char>>, replies: Seq<ReplyView>, n: int) -> Seq<
        Seq<char>,
    >
        decreases n,
    {
        if n <= 0 {
            Seq::empty()
        } else {
            match Self::outcome_at(replies, n - 1) {
                Some(Err(error)) => Self::complaints(
                    categories,
                    replies,
                    n - 1,
                ).push(Self::complaint(categories[n - 1], error)),
                _ => Self::complaints(categories, replies, n - 1),
            }
        }
    }

    /// The result of a cleanup of categories that are all known and all
    /// answered: the sums of what the scripts removed, and the categories
    /// whose scripts failed.
    pub open spec fn sum_of(categories: Seq<Seq<char>>, replies: Seq<ReplyView>)
        -> CleanResultView {
        let n = categories.len() as int;
        let errors = Self::complaints(categories, replies, n);
        CleanResultView {
            files_deleted: Self::files_removed(replies, n) as u32,
            size_freed_bytes: Self::bytes_removed(replies, n) as u64,
            errors: if errors.len() == 0 {
                None
            } else {
                Some(errors)
            },
        }
    }

    /// The cleanup of `categories`, from the first on, with nothing removed
    /// yet.
    pub open spec fn clean_plan(categories: Seq<Seq<char>>, replies: Seq<ReplyView>) -> StepView<
        CleanResultView,
    > {
        Self::clean_from(categories, 0, replies, 0, 0, 0, Seq::empty())
    }

    /// Whether the numbers that the cleanup of `categories` adds up can be
    /// held in the counters of its result.
    pub open spec fn clean_fits(categories: Seq<Seq<char>>, replies: Seq<ReplyView>) -> bool {
        Self::fits_from(categories, 0, replies, 0, 0, 0)
    }

    /// One line of an analysis.
    fn category(
        id: &str,
        name: &str,
        description: &str,
        icon: &str,
        raw: &RawCategory,
        selected: bool,
    ) -> (r: CleanupCategory)
        ensures
            r.deep_view() == Self::entry(id@, name@, description@, icon@, *raw, selected),
    {
        CleanupCategory {
            id: String::from_str(id),
            name: String::from_str(name),
            description: String::from_str(description),
            icon: String::from_str(icon),
            size_bytes: measured_bytes(raw),
            file_count: counted_files(raw),
            selected,
        }
    }

    /// The analysis that a report of the script amounts to.
    pub fn summarize(raw: &RawAnalysis) -> (r: CleanupAnalysis)
        requires
            raw.totals_fit(),
        ensures
            r.deep_view() == Self::analysis_of(*raw),
    {
        let mut categories: Vec<CleanupCategory> = Vec::new();
        categories.push(
            Self::category(
                "temp_files",
                "Arquivos Temporários",
                "Arquivos temporários do usuário",
                "🗑️",
                &raw.temp_files,
                true,
            ),
        );
        categories.push(
            Self::category(
                "windows_temp",
                "Windows Temp",
                "Arquivos temporários do Windows",
                "🪟",
                &raw.windows_temp,
                true,
            ),
        );
        categories.push(
            Self::category(
                "recycle_bin",
                "Lixeira",
                "Itens na Lixeira do Windows",
                "🗑️",
                &raw.recycle_bin,
                true,
            ),
        );
        categories.push(
            Self::category(
                "chrome_cache",
                "Cache do Chrome",
                "Cache, cookies e dados do Google Chrome",
                "🔵",
                &raw.chrome_cache,
                true,
            ),
        );
        categories.push(
            Self::category(
                "brave_cache",
                "Cache do Brave",
                "Cache, cookies e dados do Brave Browser",
                "🦁",
                &raw.brave_cache,
                true,
            ),
        );
        categories.push(
            Self::category(
                "edge_cache",
                "Cache do Edge",
                "Cache, cookies e dados do Microsoft Edge",
                "🌊",
                &raw.edge_cache,
                true,
            ),
        );
        categories.push(
            Self::category(
                "firefox_cache",
                "Cache do Firefox",
                "Cache e dados do Mozilla Firefox",
                "🦊",
                &raw.firefox_cache,
                true,
            ),
        );
        categories.push(
            Self::category(
                "windows_logs",
                "Logs do Windows",
                "Arquivos de log do sistema",
                "📋",
                &raw.windows_logs,
                false,
            ),
        );
        categories.push(
            Self::category(
                "prefetch",
                "Prefetch",
                "Dados de pré-carregamento de apps",
                "⚡",
                &raw.prefetch,
                false,
            ),
        );
        categories.push(
            Self::category(
                "thumbnails",
                "Miniaturas",
                "Cache de miniaturas do Explorer",
                "🖼️",
                &raw.thumbnails,
                false,
            ),
        );
        assert(categories.deep_view() =~= Self::listing(*raw));
        let total_size: u64 = measured_bytes(&raw.temp_files) + measured_bytes(&raw.windows_temp)
            + measured_bytes(&raw.recycle_bin) + measured_bytes(&raw.chrome_cache)
            + measured_bytes(&raw.brave_cache) + measured_bytes(&raw.edge_cache) + measured_bytes(
            &raw.firefox_cache,
        ) + measured_bytes(&raw.windows_logs) + measured_bytes(&raw.prefetch) + measured_bytes(
            &raw.thumbnails,
        );
        let total_files: u32 = counted_files(&raw.temp_files) + counted_files(&raw.windows_temp)
            + counted_files(&raw.recycle_bin) + counted_files(&raw.chrome_cache) + counted_files(
            &raw.brave_cache,
        ) + counted_files(&raw.edge_cache) + counted_files(&raw.firefox_cache) + counted_files(
            &raw.windows_logs,
        ) + counted_files(&raw.prefetch) + counted_files(&raw.thumbnails);
        CleanupAnalysis { categories, total_size_bytes: total_size, total_file_count: total_files }
    }

    /// Whether the totals of the record that was decoded, if one was, can
    /// be held in the counters of an analysis.
    pub fn analysis_within_limits(replies: &Vec<Reply>) -> (r: bool)
        ensures
            r == Self::analysis_fits(replies.deep_view()),
    {
        match slot(replies, 1) {
            Some(Reply::Decoded(Ok(Payload::Analysis(raw)))) => raw.has_fitting_totals(),
            _ => true,
        }
    }

    /// What could be removed, category by category.
    pub fn analyze(replies: &Vec<Reply>) -> (step: Step<CleanupAnalysis>)
        requires
            Self::analysis_fits(replies.deep_view()),
        ensures
            step.deep_view() == Self::analyze_plan(replies.deep_view()),
    {
        match ask(String::from_str(ANALYZE_CLEANUP), replies, 0) {
            Step::Done(Ok(text)) => match decode(
                Schema::Analysis,
                text,
                ANALYSIS_PARSE_FAILED,
                Some(QUOTED_OUTPUT),
                replies,
                1,
            ) {
                Step::Done(Ok(Payload::Analysis(raw))) => Step::Done(Ok(Self::summarize(&raw))),
                other => other.carry(),
            },
            other => other.carry(),
        }
    }

    /// What a cleanup script says it removed. An output that does not hold
    /// exactly one bar is a failure.
    pub fn parse_clean_result(output: &str) -> (r: Result<(u32, u64), String>)
        ensures
            value_view(r) == Self::removed(output@),
    {
        let bare = trimmed(output);
        match split_in_two(bare, '|') {
            Some((count, size)) => Ok(
                (read_or_zero(count, u32::MAX as u64) as u32, read_or_zero(size, u64::MAX)),
            ),
            None => {
                let mut message = String::from_str(UNREADABLE_REMOVAL);
                message.append(bare);
                Err(message)
            },
        }
    }

    fn clean_category(script: &str, replies: &Vec<Reply>, at: usize) -> (step: Step<(u32, u64)>)
        ensures
            step.deep_view() == Self::clean_category_plan(script@, replies.deep_view(), at as int),
    {
        match ask(String::from_str(script), replies, at) {
            Step::Done(Ok(output)) => Step::Done(Self::parse_clean_result(output.as_str())),
            other => other.carry(),
        }
    }

    /// Removes the temporary files of the user; the reply at `at` is what the script printed.
    pub fn clean_temp_files(replies: &Vec<Reply>, at: usize) -> (step: Step<(u32, u64)>)
        ensures
            step.deep_view() == Self::clean_category_plan(
                CLEAN_TEMP_FILES@,
                replies.deep_view(),
                at as int,
            ),
    {
        Self::clean_category(CLEAN_TEMP_FILES, replies, at)
    }

    /// Removes the temporary files of the system; the reply at `at` is what the script printed.
    pub fn clean_windows_temp(replies: &Vec<Reply>, at: usize) -> (step: Step<(u32, u64)>)
        ensures
            step.deep_view() == Self::clean_category_plan(
                CLEAN_WINDOWS_TEMP@,
                replies.deep_view(),
                at as int,
            ),
    {
        Self::clean_category(CLEAN_WINDOWS_TEMP, replies, at)
    }

    /// Removes what lies in the recycle bin; the reply at `at` is what the script printed.
    pub fn clean_recycle_bin(replies: &Vec<Reply>, at: usize) -> (step: Step<(u32, u64)>)
        ensures
            step.deep_view() == Self::clean_category_plan(
                CLEAN_RECYCLE_BIN@,
                replies.deep_view(),
                at as int,
            ),
    {
        Self::clean_category(CLEAN_RECYCLE_BIN, replies, at)
    }

    /// Removes the caches of Chrome; the reply at `at` is what the script printed.
    pub fn clean_chrome_cache(replies: &Vec<Reply>, at: usize) -> (step: Step<(u32, u64)>)
        ensures
            step.deep_view() == Self::clean_category_plan(
                CLEAN_CHROME_CACHE@,
                replies.deep_view(),
                at as int,
            ),
    {
        Self::clean_category(CLEAN_CHROME_CACHE, replies, at)
    }

    /// Removes the caches of Brave; the reply at `at` is what the script printed.
    pub fn clean_brave_cache(replies: &Vec<Reply>, at: usize) -> (step: Step<(u32, u64)>)
        ensures
            step.deep_view() == Self::clean_category_plan(
                CLEAN_BRAVE_CACHE@,
                replies.deep_view(),
                at as int,
            ),
    {
        Self::clean_category(CLEAN_BRAVE_CACHE, replies, at)
    }

    /// Removes the caches of Edge; the reply at `at` is what the script printed.
    pub fn clean_edge_cache(replies: &Vec<Reply>, at: usize) -> (step: Step<(u32, u64)>)
        ensures
            step.deep_view() == Self::clean_category_plan(
                CLEAN_EDGE_CACHE@,
                replies.deep_view(),
                at as int,
            ),
    {
        Self::clean_category(CLEAN_EDGE_CACHE, replies, at)
    }

    /// Removes the caches of Firefox; the reply at `at` is what the script printed.
    pub fn clean_firefox_cache(replies: &Vec<Reply>, at: usize) -> (step: Step<(u32, u64)>)
        ensures
            step.deep_view() == Self::clean_category_plan(
                CLEAN_FIREFOX_CACHE@,
                replies.deep_view(),
                at as int,
            ),
    {
        Self::clean_category(CLEAN_FIREFOX_CACHE, replies, at)
    }

    /// Removes the log files of the system; the reply at `at` is what the script printed.
    pub fn clean_windows_logs(replies: &Vec<Reply>, at: usize) -> (step: Step<(u32, u64)>)
        ensures
            step.deep_view() == Self::clean_category_plan(
                CLEAN_WINDOWS_LOGS@,
                replies.deep_view(),
                at as int,
            ),
    {
        Self::clean_category(CLEAN_WINDOWS_LOGS, replies, at)
    }

    /// Removes the prefetch data; the reply at `at` is what the script printed.
    pub fn clean_prefetch(replies: &Vec<Reply>, at: usize) -> (step: Step<(u32, u64)>)
        ensures
            step.deep_view() == Self::clean_category_plan(
                CLEAN_PREFETCH@,
                replies.deep_view(),
                at as int,
            ),
    {
        Self::clean_category(CLEAN_PREFETCH, replies, at)
    }

    /// Removes the thumbnail caches; the reply at `at` is what the script printed.
    pub fn clean_thumbnails(replies: &Vec<Reply>, at: usize) -> (step: Step<(u32, u64)>)
        ensures
            step.deep_view() == Self::clean_category_plan(
                CLEAN_THUMBNAILS@,
                replies.deep_view(),
                at as int,
            ),
    {
        Self::clean_category(CLEAN_THUMBNAILS, replies, at)
    }

    /// The cleanup of one category, if it is one of the ten.
    fn clean_known(category: &str, replies: &Vec<Reply>, at: usize) -> (r: Option<
        Step<(u32, u64)>,
    >)
        ensures
            r.deep_view() == match Self::script_of(category@) {
                Some(script) => Some(
                    Self::clean_category_plan(script, replies.deep_view(), at as int),
                ),
                None => None,
            },
    {
        if same_text(category, "temp_files") {
            Some(Self::clean_temp_files(replies, at))
        }         else if same_text(category, "windows_temp") {
            Some(Self::clean_windows_temp(replies, at))
        }         else if same_text(category, "recycle_bin") {
            Some(Self::clean_recycle_bin(replies, at))
        }         else if same_text(category, "chrome_cache") {
            Some(Self::clean_chrome_cache(replies, at))
        }         else if same_text(category, "brave_cache") {
            Some(Self::clean_brave_cache(replies, at))
        }         else if same_text(category, "edge_cache") {
            Some(Self::clean_edge_cache(replies, at))
        }         else if same_text(category, "firefox_cache") {
            Some(Self::clean_firefox_cache(replies, at))
        }         else if same_text(category, "windows_logs") {
            Some(Self::clean_windows_logs(replies, at))
        }         else if same_text(category, "prefetch") {
            Some(Self::clean_prefetch(replies, at))
        }         else if same_text(category, "thumbnails") {
            Some(Self::clean_thumbnails(replies, at))
        } else {
            None
        }
    }

    /// The cleanup, where its numbers fit the counters; `None` where they
    /// do not.
    fn tally(categories: &Vec<String>, replies: &Vec<Reply>) -> (r: Option<Step<CleanResult>>)
        ensures
            match r {
                Some(step) => Self::clean_fits(categories.deep_view(), replies.deep_view())
                    && step.deep_view() == Self::clean_plan(
                    categories.deep_view(),
                    replies.deep_view(),
                ),
                None => !Self::clean_fits(categories.deep_view(), replies.deep_view()),
            },
    {
        let mut total_deleted: u32 = 0;
        let mut total_size_freed: u64 = 0;
        let mut errors: Vec<String> = Vec::new();
        let mut at: usize = 0;
        let mut i: usize = 0;
        let ghost names = categories.deep_view();
        let ghost given = replies.deep_view();
        assert(errors.deep_view() =~= Seq::empty());
        while i < categories.len()
            invariant
                i <= categories.len(),
                at <= replies.len(),
                names == categories.deep_view(),
                given == replies.deep_view(),
                Self::clean_plan(names, given) == Self::clean_from(
                    names,
                    i as int,
                    given,
                    at as int,
                    total_deleted as int,
                    total_size_freed as int,
                    errors.deep_view(),
                ),
                Self::clean_fits(names, given) == Self::fits_from(
                    names,
                    i as int,
                    given,
                    at as int,
                    total_deleted as int,
                    total_size_freed as int,
                ),
            decreases categories.len() - i,
        {
            let category = categories[i].as_str();
            match Self::clean_known(category, replies, at) {
                None => {},
                Some(Step::Done(Ok((count, size)))) => {
                    match (total_deleted.checked_add(count), total_size_freed.checked_add(size)) {
                        (Some(deleted), Some(freed)) => {
                            total_deleted = deleted;
                            total_size_freed = freed;
                        },
                        _ => {
                            return None;
                        },
                    }
                    at += 1;
                },
                Some(Step::Done(Err(error))) => {
                    let mut line = String::from_str(category);
                    line.append(CATEGORY_SEPARATOR);
                    line.append(error.as_str());
                    let ghost before_push = errors.deep_view();
                    errors.push(line);
                    assert(errors.deep_view() =~= before_push.push(
                        Self::complaint(category@, error@),
                    ));
                    at += 1;
                },
                Some(other) => {
                    return Some(other.carry());
                },
            }
            i += 1;
        }
        let told = if errors.len() == 0 {
            None
        } else {
            Some(errors)
        };
        Some(
            Step::Done(
                Ok(
                    CleanResult {
                        files_deleted: total_deleted,
                        size_freed_bytes: total_size_freed,
                        errors: told,
                    },
                ),
            ),
        )
    }

    /// Whether the numbers that the cleanup of `categories` adds up can be
    /// held in the counters of its result.
    pub fn clean_within_limits(categories: &Vec<String>, replies: &Vec<Reply>) -> (r: bool)
        ensures
            r == Self::clean_fits(categories.deep_view(), replies.deep_view()),
    {
        Self::tally(categories, replies).is_some()
    }

    /// Removes the files of `categories`, one category after the other, and
    /// adds up what was removed.
    pub fn clean(categories: &Vec<String>, replies: &Vec<Reply>) -> (step: Step<CleanResult>)
        requires
            Self::clean_fits(categories.deep_view(), replies.deep_view()),
        ensures
            step.deep_view() == Self::clean_plan(categories.deep_view(), replies.deep_view()),
    {
        match Self::tally(categories, replies) {
            Some(step) => step,
            None => Step::Rejected,
        }
    }

    /// What could be removed stays told, whatever replies follow.
    pub proof fn lemma_analyze_keeps_its_end()
        ensures
            keeps_its_end(|replies: Seq<ReplyView>| Self::analyze_plan(replies)),
    {
        assert forall|replies: Seq<ReplyView>, more: Seq<ReplyView>|
            settled(Self::analyze_plan(replies)) implies Self::analyze_plan(replies + more)
            == Self::analyze_plan(replies) by {
            lemma_reply_stays(replies, more);
        }
    }

    /// An analysis lists ten categories, and its totals are the sums over
    /// what it lists.
    pub proof fn lemma_analysis_totals(raw: RawAnalysis)
        requires
            raw.totals_fit(),
        ensures
            Self::analysis_of(raw).categories.len() == 10,
            Self::analysis_of(raw).total_size_bytes == Self::listed_bytes(
                Self::analysis_of(raw).categories,
            ),
            Self::analysis_of(raw).total_file_count == Self::listed_files(
                Self::analysis_of(raw).categories,
            ),
    {
        let listing = Self::listing(raw);
        reveal_with_fuel(CleanupService::listed_bytes, 11);
        reveal_with_fuel(CleanupService::listed_files, 11);
        Self::lemma_listed_next(listing, 0);
        Self::lemma_listed_next(listing, 1);
        Self::lemma_listed_next(listing, 2);
        Self::lemma_listed_next(listing, 3);
        Self::lemma_listed_next(listing, 4);
        Self::lemma_listed_next(listing, 5);
        Self::lemma_listed_next(listing, 6);
        Self::lemma_listed_next(listing, 7);
        Self::lemma_listed_next(listing, 8);
        Self::lemma_listed_next(listing, 9);
    }

    /// The sums over one more line are the sums so far and what the line
    /// holds.
    pub proof fn lemma_listed_next(listing: Seq<CleanupCategoryView>, k: int)
        requires
            0 <= k < listing.len(),
        ensures
            Self::listed_bytes(listing.take(k + 1)) == Self::listed_bytes(listing.take(k))
                + listing[k].size_bytes,
            Self::listed_files(listing.take(k + 1)) == Self::listed_files(listing.take(k))
                + listing[k].file_count,
    {
        assert(listing.take(k + 1).drop_last() == listing.take(k));
    }

    /// A cleanup that has ended keeps its result, whatever replies follow.
    pub proof fn lemma_clean_keeps_its_end(categories: Seq<Seq<char>>)
        ensures
            keeps_its_end(|replies: Seq<ReplyView>| Self::clean_plan(categories, replies)),
    {
        assert forall|replies: Seq<ReplyView>, more: Seq<ReplyView>|
            settled(Self::clean_plan(categories, replies)) implies Self::clean_plan(
            categories,
            replies + more,
        ) == Self::clean_plan(categories, replies) by {
            Self::lemma_clean_from_keeps_its_end(
                categories,
                0,
                replies,
                more,
                0,
                0,
                0,
                Seq::empty(),
            );
        }
    }

    /// A cleanup that has ended from some category on keeps its result,
    /// whatever replies follow.
    pub proof fn lemma_clean_from_keeps_its_end(
        categories: Seq<Seq<char>>,
        i: int,
        replies: Seq<ReplyView>,
        more: Seq<ReplyView>,
        at: int,
        deleted: int,
        freed: int,
        errors: Seq<Seq<char>>,
    )
        requires
            0 <= at,
            settled(Self::clean_from(categories, i, replies, at, deleted, freed, errors)),
        ensures
            Self::clean_from(categories, i, replies + more, at, deleted, freed, errors)
                == Self::clean_from(categories, i, replies, at, deleted, freed, errors),
        decreases categories.len() - i,
    {
        lemma_reply_stays(replies, more);
        if 0 <= i < categories.len() {
            match Self::script_of(categories[i]) {
                None => {
                    Self::lemma_clean_from_keeps_its_end(
                        categories,
                        i + 1,
                        replies,
                        more,
                        at,
                        deleted,
                        freed,
                        errors,
                    );
                },
                Some(script) => {
                    match Self::clean_category_plan(script, replies, at) {
                        StepView::Done(Ok(removed)) => {
                            Self::lemma_clean_from_keeps_its_end(
                                categories,
                                i + 1,
                                replies,
                                more,
                                at + 1,
                                deleted + removed.0,
                                freed + removed.1,
                                errors,
                            );
                        },
                        StepView::Done(Err(error)) => {
                            Self::lemma_clean_from_keeps_its_end(
                                categories,
                                i + 1,
                                replies,
                                more,
                                at + 1,
                                deleted,
                                freed,
                                errors.push(Self::complaint(categories[i], error)),
                            );
                        },
                        _ => {},
                    }
                },
            }
        }
    }

    /// A cleanup never fails as a whole: it ends with a result, and the
    /// result tells of errors only where it has some to tell.
    pub proof fn lemma_clean_ends_well(categories: Seq<Seq<char>>, replies: Seq<ReplyView>)
        ensures
            !(Self::clean_plan(categories, replies) matches StepView::Done(Err(_))),
            Self::clean_plan(categories, replies) matches StepView::Done(Ok(result))
                ==> (result.errors matches Some(errors) ==> errors.len() > 0),
    {
        Self::lemma_clean_from_ends_well(categories, 0, replies, 0, 0, 0, Seq::empty());
    }

    /// A cleanup never fails as a whole, from whatever category on.
    pub proof fn lemma_clean_from_ends_well(
        categories: Seq<Seq<char>>,
        i: int,
        replies: Seq<ReplyView>,
        at: int,
        deleted: int,
        freed: int,
        errors: Seq<Seq<char>>,
    )
        ensures
            !(Self::clean_from(categories, i, replies, at, deleted, freed, errors)
                matches StepView::Done(Err(_))),
            Self::clean_from(categories, i, replies, at, deleted, freed, errors)
                matches StepView::Done(Ok(result)) ==> (result.errors matches Some(told)
                ==> told.len() > 0),
        decreases categories.len() - i,
    {
        if 0 <= i < categories.len() {
            match Self::script_of(categories[i]) {
                None => {
                    Self::lemma_clean_from_ends_well(
                        categories,
                        i + 1,
                        replies,
                        at,
                        deleted,
                        freed,
                        errors,
                    );
                },
                Some(script) => {
                    match Self::clean_category_plan(script, replies, at) {
                        StepView::Done(Ok(removed)) => {
                            Self::lemma_clean_from_ends_well(
                                categories,
                                i + 1,
                                replies,
                                at + 1,
                                deleted + removed.0,
                                freed + removed.1,
                                errors,
                            );
                        },
                        StepView::Done(Err(error)) => {
                            Self::lemma_clean_from_ends_well(
                                categories,
                                i + 1,
                                replies,
                                at + 1,
                                deleted,
                                freed,
                                errors.push(Self::complaint(categories[i], error)),
                            );
                        },
                        _ => {},
                    }
                },
            }
        }
    }

    /// A category that is not known changes nothing: the cleanup with it in
    /// front is the cleanup without it.
    pub proof fn lemma_clean_passes_over(
        unknown: Seq<char>,
        categories: Seq<Seq<char>>,
        replies: Seq<ReplyView>,
    )
        requires
            Self::script_of(unknown) is None,
        ensures
            Self::clean_plan(seq![unknown] + categories, replies) == Self::clean_plan(
                categories,
                replies,
            ),
    {
        Self::lemma_clean_from_shifted(unknown, categories, 0, replies, 0, 0, 0, Seq::empty());
    }

    /// The cleanup from a category on does not look at what stands before
    /// that category.
    pub proof fn lemma_clean_from_shifted(
        first: Seq<char>,
        categories: Seq<Seq<char>>,
        i: int,
        replies: Seq<ReplyView>,
        at: int,
        deleted: int,
        freed: int,
        errors: Seq<Seq<char>>,
    )
        requires
            0 <= i,
        ensures
            Self::clean_from(seq![first] + categories, i + 1, replies, at, deleted, freed, errors)
                == Self::clean_from(categories, i, replies, at, deleted, freed, errors),
        decreases categories.len() - i,
    {
        if i < categories.len() {
            match Self::script_of(categories[i]) {
                None => {
                    Self::lemma_clean_from_shifted(
                        first,
                        categories,
                        i + 1,
                        replies,
                        at,
                        deleted,
                        freed,
                        errors,
                    );
                },
                Some(script) => {
                    match Self::clean_category_plan(script, replies, at) {
                        StepView::Done(Ok(removed)) => {
                            Self::lemma_clean_from_shifted(
                                first,
                                categories,
                                i + 1,
                                replies,
                                at + 1,
                                deleted + removed.0,
                                freed + removed.1,
                                errors,
                            );
                        },
                        StepView::Done(Err(error)) => {
                            Self::lemma_clean_from_shifted(
                                first,
                                categories,
                                i + 1,
                                replies,
                                at + 1,
                                deleted,
                                freed,
                                errors.push(Self::complaint(categories[i], error)),
                            );
                        },
                        _ => {},
                    }
                },
            }
        }
    }

    /// The known categories of two lists in a row are those of the one and
    /// then those of the other.
    pub proof fn lemma_known_of_both(one: Seq<Seq<char>>, other: Seq<Seq<char>>)
        ensures
            Self::known(one + other) == Self::known(one) + Self::known(other),
        decreases other.len(),
    {
        if other.len() == 0 {
        } else {
            Self::lemma_known_of_both(one, other.drop_last());
            assert((one + other).drop_last() == one + other.drop_last());
        }
    }

    /// From whatever category on, a cleanup is the cleanup of the known
    /// categories from the matching one on.
    pub proof fn lemma_clean_from_known(
        categories: Seq<Seq<char>>,
        i: int,
        replies: Seq<ReplyView>,
        at: int,
        deleted: int,
        freed: int,
        errors: Seq<Seq<char>>,
    )
        requires
            0 <= i <= categories.len(),
        ensures
            Self::clean_from(categories, i, replies, at, deleted, freed, errors)
                == Self::clean_from(
                Self::known(categories),
                Self::known(categories.take(i)).len() as int,
                replies,
                at,
                deleted,
                freed,
                errors,
            ),
        decreases categories.len() - i,
    {
        Self::lemma_known_of_both(categories.take(i), categories.skip(i));
        if i == categories.len() {
            assert(categories.take(i) == categories);
        } else {
            assert(categories.take(i + 1).drop_last() == categories.take(i));
            Self::lemma_known_of_both(categories.take(i + 1), categories.skip(i + 1));
            assert(categories.take(i + 1) + categories.skip(i + 1) == categories);
            match Self::script_of(categories[i]) {
                None => {
                    Self::lemma_clean_from_known(
                        categories,
                        i + 1,
                        replies,
                        at,
                        deleted,
                        freed,
                        errors,
                    );
                },
                Some(script) => {
                    match Self::clean_category_plan(script, replies, at) {
                        StepView::Done(Ok(removed)) => {
                            Self::lemma_clean_from_known(
                                categories,
                                i + 1,
                                replies,
                                at + 1,
                                deleted + removed.0,
                                freed + removed.1,
                                errors,
                            );
                        },
                        StepView::Done(Err(error)) => {
                            Self::lemma_clean_from_known(
                                categories,
                                i + 1,
                                replies,
                                at + 1,
                                deleted,
                                freed,
                                errors.push(Self::complaint(categories[i], error)),
                            );
                        },
                        _ => {},
                    }
                },
            }
        }
    }

    /// What is not known changes nothing, wherever it stands: a cleanup is
    /// the cleanup of the known categories.
    pub proof fn lemma_clean_of_known(categories: Seq<Seq<char>>, replies: Seq<ReplyView>)
        ensures
            Self::clean_plan(categories, replies) == Self::clean_plan(
                Self::known(categories),
                replies,
            ),
            Self::all_known(Self::known(categories)),
    {
        Self::lemma_clean_from_known(categories, 0, replies, 0, 0, 0, Seq::empty());
        Self::lemma_known_are_known(categories);
    }

    /// The known categories of a list are known, every one.
    pub proof fn lemma_known_are_known(categories: Seq<Seq<char>>)
        ensures
            Self::all_known(Self::known(categories)),
        decreases categories.len(),
    {
        if categories.len() > 0 {
            Self::lemma_known_are_known(categories.drop_last());
        }
    }

    /// A cleanup of known categories, from the category at `i` on with the
    /// replies before that one read, is what the replies add up to.
    pub proof fn lemma_clean_from_adds_up(
        categories: Seq<Seq<char>>,
        i: int,
        replies: Seq<ReplyView>,
    )
        requires
            0 <= i <= categories.len(),
            Self::all_known(categories),
            Self::all_outputs(replies, categories.len() as int),
        ensures
            Self::clean_from(
                categories,
                i,
                replies,
                i,
                Self::files_removed(replies, i),
                Self::bytes_removed(replies, i),
                Self::complaints(categories, replies, i),
            ) == StepView::<CleanResultView>::Done(Ok(Self::sum_of(categories, replies))),
        decreases categories.len() - i,
    {
        if i < categories.len() {
            Self::lemma_clean_from_adds_up(categories, i + 1, replies);
        }
    }

    /// Once every one of its categories is answered, a cleanup of known
    /// categories ends with the sums of what the scripts removed and with
    /// the categories of which nothing is known to be removed.
    pub proof fn lemma_clean_adds_up(categories: Seq<Seq<char>>, replies: Seq<ReplyView>)
        requires
            Self::all_known(categories),
            Self::all_outputs(replies, categories.len() as int),
        ensures
            Self::clean_plan(categories, replies) == StepView::<CleanResultView>::Done(
                Ok(Self::sum_of(categories, replies)),
            ),
    {
        Self::lemma_clean_from_adds_up(categories, 0, replies);
    }

    /// While a category is not answered yet, a cleanup of known categories
    /// asks for the script of the first such category.
    pub proof fn lemma_clean_asks_next(categories: Seq<Seq<char>>, replies: Seq<ReplyView>)
        requires
            Self::all_known(categories),
            replies.len() < categories.len(),
            Self::all_outputs(replies, replies.len() as int),
        ensures
            Self::clean_plan(categories, replies) == StepView::<CleanResultView>::Run(
                Self::script_of(categories[replies.len() as int])->0,
            ),
    {
        Self::lemma_clean_from_asks_next(categories, 0, replies, 0, 0, Seq::empty());
    }

    /// While a category is not answered yet, a cleanup of known categories
    /// asks for the script of the first such category, from whatever
    /// answered category on.
    pub proof fn lemma_clean_from_asks_next(
        categories: Seq<Seq<char>>,
        i: int,
        replies: Seq<ReplyView>,
        deleted: int,
        freed: int,
        errors: Seq<Seq<char>>,
    )
        requires
            0 <= i <= replies.len(),
            Self::all_known(categories),
            replies.len() < categories.len(),
            Self::all_outputs(replies, replies.len() as int),
        ensures
            Self::clean_from(categories, i, replies, i, deleted, freed, errors) == StepView::<
                CleanResultView,
            >::Run(Self::script_of(categories[replies.len() as int])->0),
        decreases replies.len() - i,
    {
        if i < replies.len() {
            match Self::outcome_at(replies, i) {
                Some(Ok(removed)) => {
                    Self::lemma_clean_from_asks_next(
                        categories,
                        i + 1,
                        replies,
                        deleted + removed.0,
                        freed + removed.1,
                        errors,
                    );
                },
                Some(Err(error)) => {
                    Self::lemma_clean_from_asks_next(
                        categories,
                        i + 1,
                        replies,
                        deleted,
                        freed,
                        errors.push(Self::complaint(categories[i], error)),
                    );
                },
                _ => {},
            }
        }
    }

    /// What the scripts removed does not shrink as more replies are read.
    pub proof fn lemma_removed_grows(replies: Seq<ReplyView>, i: int, n: int)
        requires
            i <= n,
        ensures
            Self::files_removed(replies, i) <= Self::files_removed(replies, n),
            Self::bytes_removed(replies, i) <= Self::bytes_removed(replies, n),
            0 <= Self::files_removed(replies, i),
            0 <= Self::bytes_removed(replies, i),
        decreases n - i,
    {
        if i < n {
            Self::lemma_removed_grows(replies, i, n - 1);
        } else {
            Self::lemma_removed_not_negative(replies, i);
        }
    }

    /// What the scripts removed is never less than nothing.
    pub proof fn lemma_removed_not_negative(replies: Seq<ReplyView>, n: int)
        ensures
            0 <= Self::files_removed(replies, n),
            0 <= Self::bytes_removed(replies, n),
        decreases n,
    {
        if n > 0 {
            Self::lemma_removed_not_negative(replies, n - 1);
        }
    }

    /// The numbers of a cleanup of known and answered categories fit its
    /// counters, from the category at `i` on, exactly where the sums do.
    pub proof fn lemma_fits_from_sums(categories: Seq<Seq<char>>, i: int, replies: Seq<ReplyView>)
        requires
            0 <= i <= categories.len(),
            Self::all_known(categories),
            Self::all_outputs(replies, categories.len() as int),
            Self::files_removed(replies, i) <= u32::MAX,
            Self::bytes_removed(replies, i) <= u64::MAX,
        ensures
            Self::fits_from(
                categories,
                i,
                replies,
                i,
                Self::files_removed(replies, i),
                Self::bytes_removed(replies, i),
            ) <==> Self::files_removed(replies, categories.len() as int) <= u32::MAX
                && Self::bytes_removed(replies, categories.len() as int) <= u64::MAX,
        decreases categories.len() - i,
    {
        if i < categories.len() {
            Self::lemma_removed_grows(replies, i + 1, categories.len() as int);
            if Self::files_removed(replies, i + 1) <= u32::MAX && Self::bytes_removed(
                replies,
                i + 1,
            ) <= u64::MAX {
                Self::lemma_fits_from_sums(categories, i + 1, replies);
            }
        }
    }

    /// The numbers of a cleanup of known and answered categories fit its
    /// counters exactly where the sums of what the scripts removed do.
    pub proof fn lemma_clean_fits_sums(categories: Seq<Seq<char>>, replies: Seq<ReplyView>)
        requires
            Self::all_known(categories),
            Self::all_outputs(replies, categories.len() as int),
        ensures
            Self::clean_fits(categories, replies) <==> Self::files_removed(
                replies,
                categories.len() as int,
            ) <= u32::MAX && Self::bytes_removed(replies, categories.len() as int) <= u64::MAX,
    {
        Self::lemma_fits_from_sums(categories, 0, replies);
    }

    /// What a script prints as a count, a bar and a size, with whatever
    /// whitespace around the three, is read as that count and that size.
    pub proof fn lemma_removed_reads(count: u32, size: u64, before: Seq<char>, after: Seq<char>)
        requires
            all_whitespace(before),
            all_whitespace(after),
        ensures
            Self::removed(
                before + (decimal(count as nat) + seq!['|'] + decimal(size as nat)) + after,
            ) == Ok::<(u32, u64), Seq<char>>((count, size)),
    {
        let written_count = decimal(count as nat);
        let written_size = decimal(size as nat);
        let written = written_count + seq!['|'] + written_size;
        lemma_decimal_digits(count as nat);
        lemma_decimal_digits(size as nat);
        lemma_decimal_reads_back(count as nat, u32::MAX as nat);
        lemma_decimal_reads_back(size as nat, u64::MAX as nat);
        lemma_trim_of_padded(before, written, after);
        lemma_split_of_joined(written_count, '|', written_size);
    }

    /// An output is no account of a removal exactly where, whitespace
    /// around it apart, it does not hold exactly one bar; the failure
    /// quotes it.
    pub proof fn lemma_removed_fails(output: Seq<char>)
        ensures
            Self::removed(output) is Err <==> !has_one(trim(output), '|'),
            Self::removed(output) matches Err(error) ==> error == UNREADABLE_REMOVAL@ + trim(
                output,
            ),
    {
    }

    /// A category of which nothing is known to be removed has its line
    /// among the complaints.
    pub proof fn lemma_complaints_hold(
        categories: Seq<Seq<char>>,
        replies: Seq<ReplyView>,
        n: int,
        i: int,
    )
        requires
            0 <= i < n,
            Self::outcome_at(replies, i) matches Some(Err(_)),
        ensures
            Self::complaints(categories, replies, n).contains(
                Self::complaint(categories[i], Self::outcome_at(replies, i)->0->Err_0),
            ),
        decreases n,
    {
        let line = Self::complaint(categories[i], Self::outcome_at(replies, i)->0->Err_0);
        let before = Self::complaints(categories, replies, n - 1);
        let all = Self::complaints(categories, replies, n);
        if i < n - 1 {
            Self::lemma_complaints_hold(categories, replies, n - 1, i);
            let k = choose|k: int| 0 <= k < before.len() && before[k] == line;
            assert(all[k] == line);
        } else {
            assert(all == before.push(line));
            assert(all[all.len() - 1] == line);
        }
    }

    /// A cleanup of known and answered categories names every category
    /// whose script failed or printed what is no account of a removal: the
    /// result holds the line of that category and its failure.
    pub proof fn lemma_clean_names_failures(
        categories: Seq<Seq<char>>,
        replies: Seq<ReplyView>,
        i: int,
    )
        requires
            Self::all_known(categories),
            Self::all_outputs(replies, categories.len() as int),
            0 <= i < categories.len(),
            Self::outcome_at(replies, i) matches Some(Err(_)),
        ensures
            Self::clean_plan(categories, replies) matches StepView::Done(Ok(result))
                && result.errors matches Some(errors) && errors.contains(
                Self::complaint(categories[i], Self::outcome_at(replies, i)->0->Err_0),
            ),
    {
        Self::lemma_clean_adds_up(categories, replies);
        Self::lemma_complaints_hold(categories, replies, categories.len() as int, i);
    }
}

} // verus!
