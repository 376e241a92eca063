//! The TorrentGalaxy adapter: its configuration, its sort and filter
//! vocabulary, its static category tree, and the language and uploader-status
//! tables its rows render through.

use vstd::prelude::*;

use crate::conv::{
    bytes_of, digit_count_of, normalize_size, normalized_size, parse_count, shorten_number,
    shortened, to_bytes, with_protocol,
};
use crate::results::{
    Alignment, Constraint, Icon, Item, ItemType, Pagination, ResultCell, ResultColumn,
    ResultHeader, ResultRow, ResultSet, ResultTable,
};
use crate::scrape::{encoded, first_attr_of, first_inner_html_of, first_text_of, fragments_of, joined};
use crate::source::{flat_entries, CatEntry, CatGroup, Config, SourceConfig, SourceInfo};
use crate::strutil::{all_digits, dec_of, dec_val, filter_digits, last_idx, split_seq, u64_to_dec};
use crate::sync::{FetchError, SearchQuery};
use crate::theme::{Color, Theme};

verus! {

/// The sort keys this source understands.
#[derive(Clone, Copy, Debug, PartialEq, Eq, Structural)]
pub enum TgxSort {
    Date,
    Seeders,
    Leechers,
    Size,
    Name,
}

/// The filters this source understands.
#[derive(Clone, Copy, Debug, PartialEq, Eq, Structural)]
pub enum TgxFilter {
    NoFilter,
    OnlineStreams,
    ExcludeXXX,
    NoWildcard,
}

impl TgxSort {
    /// The key's position in listing order.
    pub open spec fn spec_index(self) -> int {
        match self {
            TgxSort::Date => 0,
            TgxSort::Seeders => 1,
            TgxSort::Leechers => 2,
            TgxSort::Size => 3,
            TgxSort::Name => 4,
        }
    }

    /// The key at a listing position, if any.
    pub open spec fn spec_from_index(i: usize) -> Option<TgxSort> {
        if i == 0 {
            Option::Some(TgxSort::Date)
        } else if i == 1 {
            Option::Some(TgxSort::Seeders)
        } else if i == 2 {
            Option::Some(TgxSort::Leechers)
        } else if i == 3 {
            Option::Some(TgxSort::Size)
        } else if i == 4 {
            Option::Some(TgxSort::Name)
        } else {
            Option::None
        }
    }

    /// The key's position in listing order.
    pub fn index(&self) -> (r: usize)
        ensures
            r == self.spec_index(),
    {
        match self {
            TgxSort::Date => 0,
            TgxSort::Seeders => 1,
            TgxSort::Leechers => 2,
            TgxSort::Size => 3,
            TgxSort::Name => 4,
        }
    }

    /// Reads a key back from its listing position.
    pub fn try_from(i: usize) -> (r: Option<TgxSort>)
        ensures
            r == TgxSort::spec_from_index(i),
    {
        if i == 0 {
            Option::Some(TgxSort::Date)
        } else if i == 1 {
            Option::Some(TgxSort::Seeders)
        } else if i == 2 {
            Option::Some(TgxSort::Leechers)
        } else if i == 3 {
            Option::Some(TgxSort::Size)
        } else if i == 4 {
            Option::Some(TgxSort::Name)
        } else {
            Option::None
        }
    }

    /// The display label.
    pub open spec fn label(self) -> Seq<char> {
        match self {
            TgxSort::Date => "Date"@,
            TgxSort::Seeders => "Seeders"@,
            TgxSort::Leechers => "Leechers"@,
            TgxSort::Size => "Size"@,
            TgxSort::Name => "Name"@,
        }
    }

    /// Renders the display label.
    pub fn to_string(&self) -> (r: String)
        ensures
            r@ == self.label(),
    {
        match self {
            TgxSort::Date => String::from_str("Date"),
            TgxSort::Seeders => String::from_str("Seeders"),
            TgxSort::Leechers => String::from_str("Leechers"),
            TgxSort::Size => String::from_str("Size"),
            TgxSort::Name => String::from_str("Name"),
        }
    }
}

impl TgxFilter {
    /// The filter's position in listing order.
    pub open spec fn spec_index(self) -> int {
        match self {
            TgxFilter::NoFilter => 0,
            TgxFilter::OnlineStreams => 1,
            TgxFilter::ExcludeXXX => 2,
            TgxFilter::NoWildcard => 3,
        }
    }

    /// The filter at a listing position, if any.
    pub open spec fn spec_from_index(i: usize) -> Option<TgxFilter> {
        if i == 0 {
            Option::Some(TgxFilter::NoFilter)
        } else if i == 1 {
            Option::Some(TgxFilter::OnlineStreams)
        } else if i == 2 {
            Option::Some(TgxFilter::ExcludeXXX)
        } else if i == 3 {
            Option::Some(TgxFilter::NoWildcard)
        } else {
            Option::None
        }
    }

    /// The filter's position in listing order.
    pub fn index(&self) -> (r: usize)
        ensures
            r == self.spec_index(),
    {
        match self {
            TgxFilter::NoFilter => 0,
            TgxFilter::OnlineStreams => 1,
            TgxFilter::ExcludeXXX => 2,
            TgxFilter::NoWildcard => 3,
        }
    }

    /// Reads a filter back from its listing position.
    pub fn try_from(i: usize) -> (r: Option<TgxFilter>)
        ensures
            r == TgxFilter::spec_from_index(i),
    {
        if i == 0 {
            Option::Some(TgxFilter::NoFilter)
        } else if i == 1 {
            Option::Some(TgxFilter::OnlineStreams)
        } else if i == 2 {
            Option::Some(TgxFilter::ExcludeXXX)
        } else if i == 3 {
            Option::Some(TgxFilter::NoWildcard)
        } else {
            Option::None
        }
    }

    /// The display label.
    pub open spec fn label(self) -> Seq<char> {
        match self {
            TgxFilter::NoFilter => "NoFilter"@,
            TgxFilter::OnlineStreams => "Filter online streams"@,
            TgxFilter::ExcludeXXX => "Exclude XXX"@,
            TgxFilter::NoWildcard => "No wildcard"@,
        }
    }

    /// Renders the display label.
    pub fn to_string(&self) -> (r: String)
        ensures
            r@ == self.label(),
    {
        match self {
            TgxFilter::NoFilter => String::from_str("NoFilter"),
            TgxFilter::OnlineStreams => String::from_str("Filter online streams"),
            TgxFilter::ExcludeXXX => String::from_str("Exclude XXX"),
            TgxFilter::NoWildcard => String::from_str("No wildcard"),
        }
    }
}

/// This source's configuration.
#[derive(Clone, Debug)]
pub struct TgxConfig {
    pub base_url: String,
    pub default_sort: TgxSort,
    pub default_filter: TgxFilter,
    pub default_category: String,
    pub default_search: String,
}

impl Default for TgxConfig {
    /// The stock site, sorted by date, unfiltered, over all categories.
    fn default() -> (r: Self)
        ensures
            r.base_url@ == "https://torrentgalaxy.to/"@,
            r.default_sort == TgxSort::Date,
            r.default_filter == TgxFilter::NoFilter,
            r.default_category@ == "AllCategories"@,
            r.default_search@ == Seq::<char>::empty(),
    {
        TgxConfig {
            base_url: String::from_str("https://torrentgalaxy.to/"),
            default_sort: TgxSort::Date,
            default_filter: TgxFilter::NoFilter,
            default_category: String::from_str("AllCategories"),
            default_search: String::new(),
        }
    }
}

/// The two-letter code a language name renders as; "??" for an unknown one.
pub open spec fn lang_code(s: Seq<char>) -> Seq<char> {
    if s == "English"@ {
        "en"@
    } else if s == "French"@ {
        "fr"@
    } else if s == "German"@ {
        "de"@
    } else if s == "Italian"@ {
        "it"@
    } else if s == "Japanese"@ {
        "jp"@
    } else if s == "Spanish"@ {
        "es"@
    } else if s == "Russian"@ {
        "ru"@
    } else if s == "Norwegian"@ {
        "no"@
    } else if s == "Hindi"@ {
        "hi"@
    } else if s == "Korean"@ {
        "ko"@
    } else if s == "Danish"@ {
        "da"@
    } else if s == "Dutch"@ {
        "nl"@
    } else if s == "Chinese"@ {
        "zh"@
    } else if s == "Portuguese"@ {
        "pt"@
    } else if s == "Polish"@ {
        "pl"@
    } else if s == "Turkish"@ {
        "tr"@
    } else if s == "Telugu"@ {
        "te"@
    } else if s == "Swedish"@ {
        "sv"@
    } else if s == "Czech"@ {
        "cs"@
    } else if s == "Arabic"@ {
        "ar"@
    } else if s == "Romanian"@ {
        "ro"@
    } else if s == "Bengali"@ {
        "bn"@
    } else if s == "Urdu"@ {
        "ur"@
    } else if s == "Thai"@ {
        "th"@
    } else if s == "Tamil"@ {
        "ta"@
    } else if s == "Croatian"@ {
        "hr"@
    } else {
        "??"@
    }
}

/// Maps a full language name to its two-letter code.
pub fn get_lang(full_name: String) -> (r: String)
    ensures
        r@ == lang_code(full_name@),
{
    let s = full_name.as_str();
    let code: &str = if crate::strutil::str_eq(s, "English") {
        "en"
    } else if crate::strutil::str_eq(s, "French") {
        "fr"
    } else if crate::strutil::str_eq(s, "German") {
        "de"
    } else if crate::strutil::str_eq(s, "Italian") {
        "it"
    } else if crate::strutil::str_eq(s, "Japanese") {
        "jp"
    } else if crate::strutil::str_eq(s, "Spanish") {
        "es"
    } else if crate::strutil::str_eq(s, "Russian") {
        "ru"
    } else if crate::strutil::str_eq(s, "Norwegian") {
        "no"
    } else if crate::strutil::str_eq(s, "Hindi") {
        "hi"
    } else if crate::strutil::str_eq(s, "Korean") {
        "ko"
    } else if crate::strutil::str_eq(s, "Danish") {
        "da"
    } else if crate::strutil::str_eq(s, "Dutch") {
        "nl"
    } else if crate::strutil::str_eq(s, "Chinese") {
        "zh"
    } else if crate::strutil::str_eq(s, "Portuguese") {
        "pt"
    } else if crate::strutil::str_eq(s, "Polish") {
        "pl"
    } else if crate::strutil::str_eq(s, "Turkish") {
        "tr"
    } else if crate::strutil::str_eq(s, "Telugu") {
        "te"
    } else if crate::strutil::str_eq(s, "Swedish") {
        "sv"
    } else if crate::strutil::str_eq(s, "Czech") {
        "cs"
    } else if crate::strutil::str_eq(s, "Arabic") {
        "ar"
    } else if crate::strutil::str_eq(s, "Romanian") {
        "ro"
    } else if crate::strutil::str_eq(s, "Bengali") {
        "bn"
    } else if crate::strutil::str_eq(s, "Urdu") {
        "ur"
    } else if crate::strutil::str_eq(s, "Thai") {
        "th"
    } else if crate::strutil::str_eq(s, "Tamil") {
        "ta"
    } else if crate::strutil::str_eq(s, "Croatian") {
        "hr"
    } else {
        "??"
    };
    String::from_str(code)
}

/// The semantic color an uploader status renders in, where it has one.
pub open spec fn status_color_of(s: Seq<char>) -> Option<Color> {
    if s == "Trial Uploader"@ {
        Option::Some(Color::Magenta)
    } else if s == "Trusted Uploader"@ {
        Option::Some(Color::LightGreen)
    } else if s == "Trusted User"@ {
        Option::Some(Color::Cyan)
    } else if s == "Moderator"@ {
        Option::Some(Color::Red)
    } else if s == "Admin"@ {
        Option::Some(Color::Yellow)
    } else if s == "Torrent Officer"@ {
        Option::Some(Color::LightYellow)
    } else if s == "Verified Uploader"@ {
        Option::Some(Color::LightBlue)
    } else {
        Option::None
    }
}

/// Maps an uploader status to its semantic color.
pub fn get_status_color(status: String) -> (r: Option<Color>)
    ensures
        r == status_color_of(status@),
{
    let s = status.as_str();
    if crate::strutil::str_eq(s, "Trial Uploader") {
        Option::Some(Color::Magenta)
    } else if crate::strutil::str_eq(s, "Trusted Uploader") {
        Option::Some(Color::LightGreen)
    } else if crate::strutil::str_eq(s, "Trusted User") {
        Option::Some(Color::Cyan)
    } else if crate::strutil::str_eq(s, "Moderator") {
        Option::Some(Color::Red)
    } else if crate::strutil::str_eq(s, "Admin") {
        Option::Some(Color::Yellow)
    } else if crate::strutil::str_eq(s, "Torrent Officer") {
        Option::Some(Color::LightYellow)
    } else if crate::strutil::str_eq(s, "Verified Uploader") {
        Option::Some(Color::LightBlue)
    } else {
        Option::None
    }
}

/// The HTML adapter for this source.
pub struct TorrentGalaxyHtmlSource;

/// Whether one category entry carries exactly the given data.
pub open spec fn entry_is(
    e: CatEntry,
    id: usize,
    label: Seq<char>,
    name: Seq<char>,
    cfg: Seq<char>,
    color: Color,
) -> bool {
    &&& e.id == id
    &&& e.label@ == label
    &&& e.name@ == name
    &&& e.cfg@ == cfg
    &&& e.color == color
}

/// This source's category table, flattened in listing order.
pub open spec fn tgx_flat_ok(f: Seq<CatEntry>) -> bool {
    &&& f.len() == 37
    &&& entry_is(f[0], 0, "---"@, "All Categories"@, "AllCategories"@, Color::White)
    &&& entry_is(f[1], 3, "4kM"@, "4K UHD Movies"@, "4kMovies"@, Color::LightMagenta)
    &&& entry_is(f[2], 46, "Bly"@, "Bollywood"@, "Bollywood Movies"@, Color::Green)
    &&& entry_is(f[3], 45, "Cam"@, "Cam/TS"@, "CamMovies"@, Color::LightCyan)
    &&& entry_is(f[4], 42, "HdM"@, "HD Movies"@, "HdMovies"@, Color::LightBlue)
    &&& entry_is(f[5], 4, "PkM"@, "Movie Packs"@, "PackMovies"@, Color::Magenta)
    &&& entry_is(f[6], 1, "SdM"@, "SD Movies"@, "SdMovies"@, Color::Yellow)
    &&& entry_is(f[7], 41, "HdT"@, "TV HD"@, "HdTV"@, Color::Green)
    &&& entry_is(f[8], 5, "SdT"@, "TV SD"@, "SdTV"@, Color::LightCyan)
    &&& entry_is(f[9], 11, "4kT"@, "TV 4k"@, "4kTV"@, Color::LightMagenta)
    &&& entry_is(f[10], 6, "PkT"@, "TV Packs"@, "PacksTV"@, Color::Blue)
    &&& entry_is(f[11], 7, "Spo"@, "Sports"@, "SportsTV"@, Color::LightGreen)
    &&& entry_is(f[12], 28, "Ani"@, "All Anime"@, "Anime"@, Color::LightMagenta)
    &&& entry_is(f[13], 20, "Mob"@, "Mobile Apps"@, "AppsMobile"@, Color::LightGreen)
    &&& entry_is(f[14], 21, "App"@, "Other Apps"@, "AppsOther"@, Color::Magenta)
    &&& entry_is(f[15], 18, "Win"@, "Windows Apps"@, "AppsWindows"@, Color::LightCyan)
    &&& entry_is(f[16], 13, "Abk"@, "Audiobooks"@, "Audiobooks"@, Color::Yellow)
    &&& entry_is(f[17], 19, "Com"@, "Comics"@, "Comics"@, Color::LightGreen)
    &&& entry_is(f[18], 12, "Ebk"@, "Ebooks"@, "Ebooks"@, Color::Green)
    &&& entry_is(f[19], 14, "Edu"@, "Educational"@, "Educational"@, Color::Yellow)
    &&& entry_is(f[20], 15, "Mag"@, "Magazines"@, "Magazines"@, Color::Green)
    &&& entry_is(f[21], 9, "Doc"@, "All Documentaries"@, "Documentaries"@, Color::LightYellow)
    &&& entry_is(f[22], 10, "Wgm"@, "Windows Games"@, "WindowsGames"@, Color::LightCyan)
    &&& entry_is(f[23], 43, "Ogm"@, "Other Games"@, "OtherGames"@, Color::Yellow)
    &&& entry_is(f[24], 22, "Alb"@, "Music Albums"@, "AlbumsMusic"@, Color::Cyan)
    &&& entry_is(f[25], 26, "Dis"@, "Music Discography"@, "DiscographyMusic"@, Color::Magenta)
    &&& entry_is(f[26], 23, "Los"@, "Music Lossless"@, "LosslessMusic"@, Color::LightBlue)
    &&& entry_is(f[27], 25, "MV "@, "Music Video"@, "MusicVideo"@, Color::Green)
    &&& entry_is(f[28], 24, "Sin"@, "Music Singles"@, "SinglesMusic"@, Color::LightYellow)
    &&& entry_is(f[29], 17, "Aud"@, "Other Audio"@, "AudioOther"@, Color::LightGreen)
    &&& entry_is(f[30], 40, "Pic"@, "Other Pictures"@, "PicturesOther"@, Color::Green)
    &&& entry_is(f[31], 37, "Tra"@, "Other Training"@, "TrainingOther"@, Color::LightBlue)
    &&& entry_is(f[32], 33, "Oth"@, "Other"@, "Other"@, Color::Yellow)
    &&& entry_is(f[33], 48, "4kX"@, "XXX 4k"@, "4kXXX"@, Color::Red)
    &&& entry_is(f[34], 35, "HdX"@, "XXX HD"@, "HdXXX"@, Color::Red)
    &&& entry_is(f[35], 47, "MsX"@, "XXX Misc"@, "MiscXXX"@, Color::Red)
    &&& entry_is(f[36], 34, "SdX"@, "XXX SD"@, "SdXXX"@, Color::Red)
}

/// The group names of the category tree, in listing order.
pub open spec fn tgx_groups_ok(cats: Seq<CatGroup>) -> bool {
    &&& cats.len() == 11
    &&& cats[0].name@ == "All Categories"@
    &&& cats[1].name@ == "Movies"@
    &&& cats[2].name@ == "TV"@
    &&& cats[3].name@ == "Anime"@
    &&& cats[4].name@ == "Apps"@
    &&& cats[5].name@ == "Books"@
    &&& cats[6].name@ == "Documentaries"@
    &&& cats[7].name@ == "Games"@
    &&& cats[8].name@ == "Music"@
    &&& cats[9].name@ == "Other"@
    &&& cats[10].name@ == "XXX"@
}

/// One category entry.
fn ent(id: usize, label: &str, name: &str, cfg: &str, color: Color) -> (r: CatEntry)
    ensures
        entry_is(r, id, label@, name@, cfg@, color),
{
    CatEntry {
        id,
        label: String::from_str(label),
        name: String::from_str(name),
        cfg: String::from_str(cfg),
        color,
    }
}

/// One category group.
fn grp(name: &str, entries: Vec<CatEntry>) -> (r: CatGroup)
    ensures
        r.name@ == name@,
        r.entries == entries,
{
    CatGroup { name: String::from_str(name), entries }
}

impl TorrentGalaxyHtmlSource {
    /// This source's static metadata: its category tree and its filter and
    /// sort vocabulary. Pure, needs no network.
    #[verifier::rlimit(60)]
    pub fn info() -> (r: SourceInfo)
        ensures
            tgx_groups_ok(r.cats@),
            tgx_flat_ok(flat_entries(r.cats@)),
            r.filters@.len() == 4,
            forall|i: int|
                0 <= i < 4 ==> (#[trigger] r.filters@[i])@ == TgxFilter::spec_from_index(
                    i as usize,
                )->0.label(),
            r.sorts@.len() == 5,
            forall|i: int|
                0 <= i < 5 ==> (#[trigger] r.sorts@[i])@ == TgxSort::spec_from_index(
                    i as usize,
                )->0.label(),
    {
        let mut all: Vec<CatEntry> = Vec::new();
        all.push(ent(0, "---", "All Categories", "AllCategories", Color::White));
        let mut movies: Vec<CatEntry> = Vec::new();
        movies.push(ent(3, "4kM", "4K UHD Movies", "4kMovies", Color::LightMagenta));
        movies.push(ent(46, "Bly", "Bollywood", "Bollywood Movies", Color::Green));
        movies.push(ent(45, "Cam", "Cam/TS", "CamMovies", Color::LightCyan));
        movies.push(ent(42, "HdM", "HD Movies", "HdMovies", Color::LightBlue));
        movies.push(ent(4, "PkM", "Movie Packs", "PackMovies", Color::Magenta));
        movies.push(ent(1, "SdM", "SD Movies", "SdMovies", Color::Yellow));
        let mut tv: Vec<CatEntry> = Vec::new();
        tv.push(ent(41, "HdT", "TV HD", "HdTV", Color::Green));
        tv.push(ent(5, "SdT", "TV SD", "SdTV", Color::LightCyan));
        tv.push(ent(11, "4kT", "TV 4k", "4kTV", Color::LightMagenta));
        tv.push(ent(6, "PkT", "TV Packs", "PacksTV", Color::Blue));
        tv.push(ent(7, "Spo", "Sports", "SportsTV", Color::LightGreen));
        let mut anime: Vec<CatEntry> = Vec::new();
        anime.push(ent(28, "Ani", "All Anime", "Anime", Color::LightMagenta));
        let mut apps: Vec<CatEntry> = Vec::new();
        apps.push(ent(20, "Mob", "Mobile Apps", "AppsMobile", Color::LightGreen));
        apps.push(ent(21, "App", "Other Apps", "AppsOther", Color::Magenta));
        apps.push(ent(18, "Win", "Windows Apps", "AppsWindows", Color::LightCyan));
        let mut books: Vec<CatEntry> = Vec::new();
        books.push(ent(13, "Abk", "Audiobooks", "Audiobooks", Color::Yellow));
        books.push(ent(19, "Com", "Comics", "Comics", Color::LightGreen));
        books.push(ent(12, "Ebk", "Ebooks", "Ebooks", Color::Green));
        books.push(ent(14, "Edu", "Educational", "Educational", Color::Yellow));
        books.push(ent(15, "Mag", "Magazines", "Magazines", Color::Green));
        let mut docs: Vec<CatEntry> = Vec::new();
        docs.push(ent(9, "Doc", "All Documentaries", "Documentaries", Color::LightYellow));
        let mut games: Vec<CatEntry> = Vec::new();
        games.push(ent(10, "Wgm", "Windows Games", "WindowsGames", Color::LightCyan));
        games.push(ent(43, "Ogm", "Other Games", "OtherGames", Color::Yellow));
        let mut music: Vec<CatEntry> = Vec::new();
        music.push(ent(22, "Alb", "Music Albums", "AlbumsMusic", Color::Cyan));
        music.push(ent(26, "Dis", "Music Discography", "DiscographyMusic", Color::Magenta));
        music.push(ent(23, "Los", "Music Lossless", "LosslessMusic", Color::LightBlue));
        music.push(ent(25, "MV ", "Music Video", "MusicVideo", Color::Green));
        music.push(ent(24, "Sin", "Music Singles", "SinglesMusic", Color::LightYellow));
        let mut other: Vec<CatEntry> = Vec::new();
        other.push(ent(17, "Aud", "Other Audio", "AudioOther", Color::LightGreen));
        other.push(ent(40, "Pic", "Other Pictures", "PicturesOther", Color::Green));
        other.push(ent(37, "Tra", "Other Training", "TrainingOther", Color::LightBlue));
        other.push(ent(33, "Oth", "Other", "Other", Color::Yellow));
        let mut xxx: Vec<CatEntry> = Vec::new();
        xxx.push(ent(48, "4kX", "XXX 4k", "4kXXX", Color::Red));
        xxx.push(ent(35, "HdX", "XXX HD", "HdXXX", Color::Red));
        xxx.push(ent(47, "MsX", "XXX Misc", "MiscXXX", Color::Red));
        xxx.push(ent(34, "SdX", "XXX SD", "SdXXX", Color::Red));
        let mut cats: Vec<CatGroup> = Vec::new();
        cats.push(grp("All Categories", all));
        cats.push(grp("Movies", movies));
        cats.push(grp("TV", tv));
        cats.push(grp("Anime", anime));
        cats.push(grp("Apps", apps));
        cats.push(grp("Books", books));
        cats.push(grp("Documentaries", docs));
        cats.push(grp("Games", games));
        cats.push(grp("Music", music));
        cats.push(grp("Other", other));
        cats.push(grp("XXX", xxx));
        proof {
            let cs = cats@;
            assert(cs.take(0) =~= Seq::<CatGroup>::empty());
            crate::source::lemma_flat_take_snoc(cs, 0);
            crate::source::lemma_flat_take_snoc(cs, 1);
            crate::source::lemma_flat_take_snoc(cs, 2);
            crate::source::lemma_flat_take_snoc(cs, 3);
            crate::source::lemma_flat_take_snoc(cs, 4);
            crate::source::lemma_flat_take_snoc(cs, 5);
            crate::source::lemma_flat_take_snoc(cs, 6);
            crate::source::lemma_flat_take_snoc(cs, 7);
            crate::source::lemma_flat_take_snoc(cs, 8);
            crate::source::lemma_flat_take_snoc(cs, 9);
            crate::source::lemma_flat_take_snoc(cs, 10);
            assert(cs.take(11) =~= cs);
        }
        let mut filters: Vec<String> = Vec::new();
        filters.push(TgxFilter::NoFilter.to_string());
        filters.push(TgxFilter::OnlineStreams.to_string());
        filters.push(TgxFilter::ExcludeXXX.to_string());
        filters.push(TgxFilter::NoWildcard.to_string());
        let mut sorts: Vec<String> = Vec::new();
        sorts.push(TgxSort::Date.to_string());
        sorts.push(TgxSort::Seeders.to_string());
        sorts.push(TgxSort::Leechers.to_string());
        sorts.push(TgxSort::Size.to_string());
        sorts.push(TgxSort::Name.to_string());
        SourceInfo { cats, filters, sorts }
    }

    /// Ensures the shared configuration carries a section for this source,
    /// filling in the stock defaults where it has none.
    pub fn load_config(cfg: &mut SourceConfig)
        ensures
            old(cfg).tgx is Some ==> *final(cfg) == *old(cfg),
            old(cfg).tgx is None ==> {
                &&& final(cfg).tgx is Some
                &&& final(cfg).tgx->0.base_url@ == "https://torrentgalaxy.to/"@
                &&& final(cfg).tgx->0.default_sort == TgxSort::Date
                &&& final(cfg).tgx->0.default_filter == TgxFilter::NoFilter
                &&& final(cfg).tgx->0.default_category@ == "AllCategories"@
                &&& final(cfg).tgx->0.default_search@ == Seq::<char>::empty()
            },
    {
        if cfg.tgx.is_none() {
            cfg.tgx = Option::Some(TgxConfig::default());
        }
    }

    /// The configured default category's id.
    pub fn default_category(cfg: &Config) -> (r: usize)
        ensures
            cfg.sources.tgx is Some ==> r == tgx_cat_id_of(cfg.sources.tgx->0.default_category@),
            cfg.sources.tgx is None ==> r == 0,
    {
        match &cfg.sources.tgx {
            Option::Some(t) => tgx_cat_id_from_cfg(t.default_category.as_str()),
            Option::None => 0,
        }
    }

    /// The configured default sort's position.
    pub fn default_sort(cfg: &Config) -> (r: usize)
        ensures
            cfg.sources.tgx is Some ==> r == cfg.sources.tgx->0.default_sort.spec_index(),
            cfg.sources.tgx is None ==> r == 0,
    {
        match &cfg.sources.tgx {
            Option::Some(t) => t.default_sort.index(),
            Option::None => 0,
        }
    }

    /// The configured default filter's position.
    pub fn default_filter(cfg: &Config) -> (r: usize)
        ensures
            cfg.sources.tgx is Some ==> r == cfg.sources.tgx->0.default_filter.spec_index(),
            cfg.sources.tgx is None ==> r == 0,
    {
        match &cfg.sources.tgx {
            Option::Some(t) => t.default_filter.index(),
            Option::None => 0,
        }
    }
}

/// The id of the category whose machine name is given; 0 for an unknown name.
pub open spec fn tgx_cat_id_of(name: Seq<char>) -> usize {
    if name == "AllCategories"@ {
        0
    } else if name == "4kMovies"@ {
        3
    } else if name == "Bollywood Movies"@ {
        46
    } else if name == "CamMovies"@ {
        45
    } else if name == "HdMovies"@ {
        42
    } else if name == "PackMovies"@ {
        4
    } else if name == "SdMovies"@ {
        1
    } else if name == "HdTV"@ {
        41
    } else if name == "SdTV"@ {
        5
    } else if name == "4kTV"@ {
        11
    } else if name == "PacksTV"@ {
        6
    } else if name == "SportsTV"@ {
        7
    } else if name == "Anime"@ {
        28
    } else if name == "AppsMobile"@ {
        20
    } else if name == "AppsOther"@ {
        21
    } else if name == "AppsWindows"@ {
        18
    } else if name == "Audiobooks"@ {
        13
    } else if name == "Comics"@ {
        19
    } else if name == "Ebooks"@ {
        12
    } else if name == "Educational"@ {
        14
    } else if name == "Magazines"@ {
        15
    } else if name == "Documentaries"@ {
        9
    } else if name == "WindowsGames"@ {
        10
    } else if name == "OtherGames"@ {
        43
    } else if name == "AlbumsMusic"@ {
        22
    } else if name == "DiscographyMusic"@ {
        26
    } else if name == "LosslessMusic"@ {
        23
    } else if name == "MusicVideo"@ {
        25
    } else if name == "SinglesMusic"@ {
        24
    } else if name == "AudioOther"@ {
        17
    } else if name == "PicturesOther"@ {
        40
    } else if name == "TrainingOther"@ {
        37
    } else if name == "Other"@ {
        33
    } else if name == "4kXXX"@ {
        48
    } else if name == "HdXXX"@ {
        35
    } else if name == "MiscXXX"@ {
        47
    } else if name == "SdXXX"@ {
        34
    } else {
        0
    }
}

/// Looks a category id up by machine name.
pub fn tgx_cat_id_from_cfg(name: &str) -> (r: usize)
    ensures
        r == tgx_cat_id_of(name@),
{
    if crate::strutil::str_eq(name, "AllCategories") {
        0
    } else if crate::strutil::str_eq(name, "4kMovies") {
        3
    } else if crate::strutil::str_eq(name, "Bollywood Movies") {
        46
    } else if crate::strutil::str_eq(name, "CamMovies") {
        45
    } else if crate::strutil::str_eq(name, "HdMovies") {
        42
    } else if crate::strutil::str_eq(name, "PackMovies") {
        4
    } else if crate::strutil::str_eq(name, "SdMovies") {
        1
    } else if crate::strutil::str_eq(name, "HdTV") {
        41
    } else if crate::strutil::str_eq(name, "SdTV") {
        5
    } else if crate::strutil::str_eq(name, "4kTV") {
        11
    } else if crate::strutil::str_eq(name, "PacksTV") {
        6
    } else if crate::strutil::str_eq(name, "SportsTV") {
        7
    } else if crate::strutil::str_eq(name, "Anime") {
        28
    } else if crate::strutil::str_eq(name, "AppsMobile") {
        20
    } else if crate::strutil::str_eq(name, "AppsOther") {
        21
    } else if crate::strutil::str_eq(name, "AppsWindows") {
        18
    } else if crate::strutil::str_eq(name, "Audiobooks") {
        13
    } else if crate::strutil::str_eq(name, "Comics") {
        19
    } else if crate::strutil::str_eq(name, "Ebooks") {
        12
    } else if crate::strutil::str_eq(name, "Educational") {
        14
    } else if crate::strutil::str_eq(name, "Magazines") {
        15
    } else if crate::strutil::str_eq(name, "Documentaries") {
        9
    } else if crate::strutil::str_eq(name, "WindowsGames") {
        10
    } else if crate::strutil::str_eq(name, "OtherGames") {
        43
    } else if crate::strutil::str_eq(name, "AlbumsMusic") {
        22
    } else if crate::strutil::str_eq(name, "DiscographyMusic") {
        26
    } else if crate::strutil::str_eq(name, "LosslessMusic") {
        23
    } else if crate::strutil::str_eq(name, "MusicVideo") {
        25
    } else if crate::strutil::str_eq(name, "SinglesMusic") {
        24
    } else if crate::strutil::str_eq(name, "AudioOther") {
        17
    } else if crate::strutil::str_eq(name, "PicturesOther") {
        40
    } else if crate::strutil::str_eq(name, "TrainingOther") {
        37
    } else if crate::strutil::str_eq(name, "Other") {
        33
    } else if crate::strutil::str_eq(name, "4kXXX") {
        48
    } else if crate::strutil::str_eq(name, "HdXXX") {
        35
    } else if crate::strutil::str_eq(name, "MiscXXX") {
        47
    } else if crate::strutil::str_eq(name, "SdXXX") {
        34
    } else {
        0
    }
}

/// The icon label of the category with the given id; the catch-all icon for
/// an unknown one.
pub open spec fn tgx_icon_label_of(id: usize) -> Seq<char> {
    if id == 0 {
        "---"@
    } else if id == 3 {
        "4kM"@
    } else if id == 46 {
        "Bly"@
    } else if id == 45 {
        "Cam"@
    } else if id == 42 {
        "HdM"@
    } else if id == 4 {
        "PkM"@
    } else if id == 1 {
        "SdM"@
    } else if id == 41 {
        "HdT"@
    } else if id == 5 {
        "SdT"@
    } else if id == 11 {
        "4kT"@
    } else if id == 6 {
        "PkT"@
    } else if id == 7 {
        "Spo"@
    } else if id == 28 {
        "Ani"@
    } else if id == 20 {
        "Mob"@
    } else if id == 21 {
        "App"@
    } else if id == 18 {
        "Win"@
    } else if id == 13 {
        "Abk"@
    } else if id == 19 {
        "Com"@
    } else if id == 12 {
        "Ebk"@
    } else if id == 14 {
        "Edu"@
    } else if id == 15 {
        "Mag"@
    } else if id == 9 {
        "Doc"@
    } else if id == 10 {
        "Wgm"@
    } else if id == 43 {
        "Ogm"@
    } else if id == 22 {
        "Alb"@
    } else if id == 26 {
        "Dis"@
    } else if id == 23 {
        "Los"@
    } else if id == 25 {
        "MV "@
    } else if id == 24 {
        "Sin"@
    } else if id == 17 {
        "Aud"@
    } else if id == 40 {
        "Pic"@
    } else if id == 37 {
        "Tra"@
    } else if id == 33 {
        "Oth"@
    } else if id == 48 {
        "4kX"@
    } else if id == 35 {
        "HdX"@
    } else if id == 47 {
        "MsX"@
    } else if id == 34 {
        "SdX"@
    } else {
        "---"@
    }
}

/// The icon color of the category with the given id.
pub open spec fn tgx_icon_color_of(id: usize) -> Color {
    if id == 0 {
        Color::White
    } else if id == 3 {
        Color::LightMagenta
    } else if id == 46 {
        Color::Green
    } else if id == 45 {
        Color::LightCyan
    } else if id == 42 {
        Color::LightBlue
    } else if id == 4 {
        Color::Magenta
    } else if id == 1 {
        Color::Yellow
    } else if id == 41 {
        Color::Green
    } else if id == 5 {
        Color::LightCyan
    } else if id == 11 {
        Color::LightMagenta
    } else if id == 6 {
        Color::Blue
    } else if id == 7 {
        Color::LightGreen
    } else if id == 28 {
        Color::LightMagenta
    } else if id == 20 {
        Color::LightGreen
    } else if id == 21 {
        Color::Magenta
    } else if id == 18 {
        Color::LightCyan
    } else if id == 13 {
        Color::Yellow
    } else if id == 19 {
        Color::LightGreen
    } else if id == 12 {
        Color::Green
    } else if id == 14 {
        Color::Yellow
    } else if id == 15 {
        Color::Green
    } else if id == 9 {
        Color::LightYellow
    } else if id == 10 {
        Color::LightCyan
    } else if id == 43 {
        Color::Yellow
    } else if id == 22 {
        Color::Cyan
    } else if id == 26 {
        Color::Magenta
    } else if id == 23 {
        Color::LightBlue
    } else if id == 25 {
        Color::Green
    } else if id == 24 {
        Color::LightYellow
    } else if id == 17 {
        Color::LightGreen
    } else if id == 40 {
        Color::Green
    } else if id == 37 {
        Color::LightBlue
    } else if id == 33 {
        Color::Yellow
    } else if id == 48 {
        Color::Red
    } else if id == 35 {
        Color::Red
    } else if id == 47 {
        Color::Red
    } else if id == 34 {
        Color::Red
    } else {
        Color::White
    }
}

/// The icon of the category with the given id.
pub fn tgx_icon(id: usize) -> (r: Icon)
    ensures
        r.label@ == tgx_icon_label_of(id),
        r.color == tgx_icon_color_of(id),
{
    let label: &str = if id == 0 {
        "---"
    } else if id == 3 {
        "4kM"
    } else if id == 46 {
        "Bly"
    } else if id == 45 {
        "Cam"
    } else if id == 42 {
        "HdM"
    } else if id == 4 {
        "PkM"
    } else if id == 1 {
        "SdM"
    } else if id == 41 {
        "HdT"
    } else if id == 5 {
        "SdT"
    } else if id == 11 {
        "4kT"
    } else if id == 6 {
        "PkT"
    } else if id == 7 {
        "Spo"
    } else if id == 28 {
        "Ani"
    } else if id == 20 {
        "Mob"
    } else if id == 21 {
        "App"
    } else if id == 18 {
        "Win"
    } else if id == 13 {
        "Abk"
    } else if id == 19 {
        "Com"
    } else if id == 12 {
        "Ebk"
    } else if id == 14 {
        "Edu"
    } else if id == 15 {
        "Mag"
    } else if id == 9 {
        "Doc"
    } else if id == 10 {
        "Wgm"
    } else if id == 43 {
        "Ogm"
    } else if id == 22 {
        "Alb"
    } else if id == 26 {
        "Dis"
    } else if id == 23 {
        "Los"
    } else if id == 25 {
        "MV "
    } else if id == 24 {
        "Sin"
    } else if id == 17 {
        "Aud"
    } else if id == 40 {
        "Pic"
    } else if id == 37 {
        "Tra"
    } else if id == 33 {
        "Oth"
    } else if id == 48 {
        "4kX"
    } else if id == 35 {
        "HdX"
    } else if id == 47 {
        "MsX"
    } else if id == 34 {
        "SdX"
    } else {
        "---"
    };
    let color: Color = if id == 0 {
        Color::White
    } else if id == 3 || id == 11 || id == 28 {
        Color::LightMagenta
    } else if id == 46 || id == 41 || id == 12 || id == 15 || id == 25 || id == 40 {
        Color::Green
    } else if id == 45 || id == 5 || id == 18 || id == 10 {
        Color::LightCyan
    } else if id == 42 || id == 23 || id == 37 {
        Color::LightBlue
    } else if id == 4 || id == 21 || id == 26 {
        Color::Magenta
    } else if id == 1 || id == 13 || id == 14 || id == 43 || id == 33 {
        Color::Yellow
    } else if id == 6 {
        Color::Blue
    } else if id == 7 || id == 20 || id == 19 || id == 17 {
        Color::LightGreen
    } else if id == 9 || id == 24 {
        Color::LightYellow
    } else if id == 22 {
        Color::Cyan
    } else if id == 48 || id == 35 || id == 47 || id == 34 {
        Color::Red
    } else {
        Color::White
    };
    Icon { label: String::from_str(label), color }
}

/// The query-string fragment a filter index adds.
pub open spec fn filter_param(f: usize) -> Seq<char> {
    if f == 1 {
        "&filterstream=1"@
    } else if f == 2 {
        "&nox=2&nox=1"@
    } else if f == 3 {
        "&nowildcard=1"@
    } else {
        ""@
    }
}

/// The query-string fragment a sort index adds.
pub open spec fn sort_param(x: usize) -> Seq<char> {
    if x == 0 {
        "&sort=id"@
    } else if x == 1 {
        "&sort=seeders"@
    } else if x == 2 {
        "&sort=leechers"@
    } else if x == 3 {
        "&sort=size"@
    } else if x == 4 {
        "&sort=name"@
    } else {
        ""@
    }
}

/// The query-string fragment a category id adds.
pub open spec fn cat_param(c: usize) -> Seq<char> {
    if c == 0 {
        ""@
    } else {
        "&c"@ + dec_of(c as nat) + "=1"@
    }
}

/// The whole query string of one search: the encoded text, the zero-based
/// page, and the filter, category, sort and order fragments, in that order.
pub open spec fn query_string_of(q: SearchQuery) -> Seq<char> {
    "search="@ + encoded(q.query@) + "&page="@ + dec_of((q.page - 1) as nat) + filter_param(
        q.filter,
    ) + cat_param(q.category) + sort_param(q.sort.sort) + "&order="@ + q.sort.dir.url_label()
}

/// The extracted text, or its documented default where the markup has none.
pub open spec fn or_else(o: Option<Seq<char>>, d: Seq<char>) -> Seq<char> {
    match o {
        Option::Some(s) => s,
        Option::None => d,
    }
}

/// The category id read from a category link: the digits after the last
/// `=`, or 0 where there are none.
pub open spec fn cat_id_of(raw: Seq<char>) -> usize {
    let li = last_idx(raw, '=');
    if li < 0 {
        0
    } else {
        let p = raw.skip(li + 1);
        if p.len() > 0 && all_digits(p) && dec_val(p) <= usize::MAX {
            dec_val(p) as usize
        } else {
            0
        }
    }
}

/// The torrent-file hash read out of a torrent link: its fifth
/// slash-delimited segment.
pub open spec fn hash_of(link: Seq<char>) -> Seq<char> {
    let segs = split_seq(link, '/');
    if segs.len() > 4 {
        segs[4]
    } else {
        "unknown"@
    }
}

/// How one normalized item relates to the row fragment it was read from.
pub open spec fn item_matches(it: Item, i: int, f: Seq<char>, base: Seq<char>) -> bool {
    let cat_raw = or_else(first_attr_of(f, "div.tgxtablecell:nth-of-type(1) > a"@, "href"@), ""@);
    let cat = cat_id_of(cat_raw);
    let size_raw = or_else(
        first_text_of(f, "div.tgxtablecell:nth-of-type(8) > span"@),
        "0 MB"@,
    );
    let torrent_href = or_else(
        first_attr_of(f, "div.tgxtablecell:nth-of-type(5) > a:first-of-type"@, "href"@),
        ""@,
    );
    let post_href = or_else(
        first_attr_of(f, "div.tgxtablecell:nth-of-type(4) > div > a.txlight"@, "href"@),
        ""@,
    );
    &&& it.id == i
    &&& it.title@ == or_else(
        first_attr_of(f, "div.tgxtablecell:nth-of-type(4) > div > a.txlight"@, "title"@),
        ""@,
    )
    &&& it.date@ == or_else(first_text_of(f, "div.tgxtablecell:nth-of-type(12)"@), ""@)
    &&& it.seeders == digit_count_of(
        or_else(
            first_text_of(
                f,
                "div.tgxtablecell:nth-of-type(11) > span > font:first-of-type > b"@,
            ),
            "0"@,
        ),
    )
    &&& it.leechers == digit_count_of(
        or_else(
            first_text_of(
                f,
                "div.tgxtablecell:nth-of-type(11) > span > font:last-of-type > b"@,
            ),
            "0"@,
        ),
    )
    &&& it.downloads == digit_count_of(
        or_else(
            first_text_of(f, "div.tgxtablecell:nth-of-type(10) > span > font > b"@),
            "0"@,
        ),
    )
    &&& it.size@ == normalized_size(size_raw)
    &&& it.bytes == bytes_of(normalized_size(size_raw))
    &&& it.item_type == (if first_attr_of(
        f,
        "div.tgxtablecell:nth-of-type(2) > i.fa-check"@,
        "class"@,
    ) is Some {
        ItemType::Normal
    } else {
        ItemType::Remake
    })
    &&& it.torrent_link@ == or_else(joined(base, torrent_href), ""@)
    &&& it.magnet_link@ == or_else(
        first_attr_of(f, "div.tgxtablecell:nth-of-type(5) > a:last-of-type"@, "href"@),
        ""@,
    )
    &&& it.post_link@ == or_else(joined(base, post_href), ""@)
    &&& it.file_name@ == hash_of(or_else(joined(base, torrent_href), ""@)) + ".torrent"@
    &&& it.category == cat
    &&& it.icon.label@ == tgx_icon_label_of(cat)
    &&& it.icon.color == tgx_icon_color_of(cat)
    &&& it.uploader@ == or_else(
        first_text_of(f, "div.tgxtablecell:nth-of-type(7) > span > a > span"@),
        "???"@,
    )
    &&& it.uploader_status@ == or_else(
        first_attr_of(f, "div.tgxtablecell:nth-of-type(7) > span > a"@, "title"@),
        ""@,
    )
    &&& it.lang@ == or_else(
        first_attr_of(f, "div.tgxtablecell:nth-of-type(3) > img"@, "title"@),
        ""@,
    )
}

/// Partial-failure normalization: a row whose seeder count cannot be located
/// still yields an item, and its seeder count reads as 0 — never an error.
pub proof fn lemma_missing_seeders_read_as_zero(it: Item, i: int, f: Seq<char>, base: Seq<char>)
    requires
        item_matches(it, i, f, base),
        first_text_of(
            f,
            "div.tgxtablecell:nth-of-type(11) > span > font:first-of-type > b"@,
        ) is None,
    ensures
        it.seeders == 0,
{
    reveal_strlit("0");
    let s = "0"@;
    assert(s.len() == 1);
    assert(s[0] == '0');
    assert(s.last() == '0');
    assert(crate::strutil::is_digit('0'));
    assert(s.drop_last() =~= Seq::<char>::empty());
    assert(filter_digits(Seq::<char>::empty()) =~= Seq::<char>::empty());
    assert(filter_digits(s) =~= seq!['0']);
    assert(seq!['0'].drop_last() =~= Seq::<char>::empty());
    assert(dec_val(Seq::<char>::empty()) == 0);
    assert(crate::strutil::digit_val('0') == 0);
    assert(dec_val(seq!['0']) == 0);
}

/// Pagination derived from the result-count badge: the counted total and its
/// page count where the badge is readable; the documented placeholder of 50
/// pages and 2500 results where it is not but items exist; zero for a
/// located, empty list.
pub open spec fn pagination_of(badge: Option<Seq<char>>, n_items: int) -> (int, int) {
    match badge {
        Option::None => if n_items == 0 {
            (0int, 0int)
        } else {
            (50int, 2500int)
        },
        Option::Some(t) => {
            let d = filter_digits(t);
            if d.len() > 0 && dec_val(d) <= usize::MAX {
                let num = dec_val(d);
                if num != 0 || n_items == 0 {
                    ((num + 49) / 50, num)
                } else {
                    (50int, 2500int)
                }
            } else {
                if n_items == 0 {
                    (0int, 0int)
                } else {
                    (50int, 2500int)
                }
            }
        },
    }
}

/// Empty-result pagination: an empty item list paginates to zero pages and
/// zero results, whether the count badge reads zero or is absent — the
/// nonzero placeholder is reserved for pages where items exist but the badge
/// cannot be read.
pub proof fn lemma_empty_list_paginates_to_zero(badge: Option<Seq<char>>)
    requires
        ({
            match badge {
                Option::None => true,
                Option::Some(t) => dec_val(filter_digits(t)) == 0,
            }
        }),
    ensures
        pagination_of(badge, 0) == (0int, 0int),
{
}

impl TorrentGalaxyHtmlSource {
    /// Assembles the query string for one search snapshot.
    pub fn build_query(search: &SearchQuery) -> (r: String)
        requires
            search.page >= 1,
        ensures
            r@ == query_string_of(*search),
    {
        let enc = crate::scrape::url_encode(search.query.as_str());
        let page = u64_to_dec((search.page - 1) as u64);
        let fparam: &str = if search.filter == 1 {
            "&filterstream=1"
        } else if search.filter == 2 {
            "&nox=2&nox=1"
        } else if search.filter == 3 {
            "&nowildcard=1"
        } else {
            ""
        };
        proof {
            reveal_strlit("");
            assert(fparam@ == filter_param(search.filter));
        }
        let cparam: String = if search.category != 0 {
            let mut c = String::from_str("&c");
            let cd = u64_to_dec(search.category as u64);
            c.append(cd.as_str());
            c.append("=1");
            c
        } else {
            String::new()
        };
        proof {
            assert(cparam@ =~= cat_param(search.category));
        }
        let sparam: &str = if search.sort.sort == 0 {
            "&sort=id"
        } else if search.sort.sort == 1 {
            "&sort=seeders"
        } else if search.sort.sort == 2 {
            "&sort=leechers"
        } else if search.sort.sort == 3 {
            "&sort=size"
        } else if search.sort.sort == 4 {
            "&sort=name"
        } else {
            ""
        };
        proof {
            reveal_strlit("");
            assert(sparam@ == sort_param(search.sort.sort));
        }
        let ord = search.sort.dir.to_url();
        let mut q = String::from_str("search=");
        q.append(enc.as_str());
        q.append("&page=");
        q.append(page.as_str());
        q.append(fparam);
        q.append(cparam.as_str());
        q.append(sparam);
        q.append("&order=");
        q.append(ord.as_str());
        proof {
            assert(q@ =~= query_string_of(*search));
        }
        q
    }

    /// The full request URL for one search: the configured base with the
    /// search path and the query string; nothing where the base does not
    /// parse as a URL.
    pub fn build_url(tgx: &TgxConfig, search: &SearchQuery) -> (r: Option<String>)
        requires
            search.page >= 1,
        ensures
            ({
                let base = joined(with_protocol(tgx.base_url@, true), "torrents.php"@);
                match r {
                    Option::Some(u) => base is Some && u@ == base->0 + "?"@ + query_string_of(
                        *search,
                    ),
                    Option::None => base is None,
                }
            }),
    {
        let with_proto = crate::conv::add_protocol(tgx.base_url.clone(), true);
        let base = match crate::scrape::join_url(with_proto.as_str(), "torrents.php") {
            Option::None => {
                return Option::None;
            },
            Option::Some(b) => b,
        };
        let q = Self::build_query(search);
        let mut u = base;
        u.append("?");
        u.append(q.as_str());
        Option::Some(u)
    }

    /// The transport rule: only the plain success status is accepted; any
    /// other code fails the fetch with its request context.
    pub fn check_status(url: &str, code: u16) -> (r: Result<(), FetchError>)
        ensures
            ({
                match r {
                    Result::Ok(_) => code == 200,
                    Result::Err(e) => code != 200 && (e matches FetchError::Transport(u, c)
                        && u@ == url@ && c == code),
                }
            }),
    {
        if code == 200 {
            Result::Ok(())
        } else {
            Result::Err(FetchError::Transport(url.to_owned(), code))
        }
    }

    /// Reads one row fragment into a normalized item. Every unreadable field
    /// gets its documented default instead of failing the item.
    pub fn extract_item(i: usize, fragment: &str, base_url: &str) -> (r: Item)
        ensures
            item_matches(r, i as int, fragment@, base_url@),
    {
        let title = or_string(
            crate::scrape::select_first_attr(
                fragment,
                "div.tgxtablecell:nth-of-type(4) > div > a.txlight",
                "title",
            ),
            "",
        );
        let post_href = or_string(
            crate::scrape::select_first_attr(
                fragment,
                "div.tgxtablecell:nth-of-type(4) > div > a.txlight",
                "href",
            ),
            "",
        );
        let cat_raw = or_string(
            crate::scrape::select_first_attr(
                fragment,
                "div.tgxtablecell:nth-of-type(1) > a",
                "href",
            ),
            "",
        );
        let cat = cat_from_href(cat_raw.as_str());
        let date = or_string(
            crate::scrape::select_first_text(fragment, "div.tgxtablecell:nth-of-type(12)"),
            "",
        );
        let seeders = parse_count(
            or_string(
                crate::scrape::select_first_text(
                    fragment,
                    "div.tgxtablecell:nth-of-type(11) > span > font:first-of-type > b",
                ),
                "0",
            ).as_str(),
        );
        let leechers = parse_count(
            or_string(
                crate::scrape::select_first_text(
                    fragment,
                    "div.tgxtablecell:nth-of-type(11) > span > font:last-of-type > b",
                ),
                "0",
            ).as_str(),
        );
        let downloads = parse_count(
            or_string(
                crate::scrape::select_first_text(
                    fragment,
                    "div.tgxtablecell:nth-of-type(10) > span > font > b",
                ),
                "0",
            ).as_str(),
        );
        let size_raw = or_string(
            crate::scrape::select_first_text(fragment, "div.tgxtablecell:nth-of-type(8) > span"),
            "0 MB",
        );
        let size = normalize_size(size_raw.as_str());
        let bytes = to_bytes(size.as_str());
        let item_type = match crate::scrape::select_first_attr(
            fragment,
            "div.tgxtablecell:nth-of-type(2) > i.fa-check",
            "class",
        ) {
            Option::Some(_) => ItemType::Normal,
            Option::None => ItemType::Remake,
        };
        let torrent_href = or_string(
            crate::scrape::select_first_attr(
                fragment,
                "div.tgxtablecell:nth-of-type(5) > a:first-of-type",
                "href",
            ),
            "",
        );
        let torrent_link = or_string(
            crate::scrape::join_url(base_url, torrent_href.as_str()),
            "",
        );
        let magnet_link = or_string(
            crate::scrape::select_first_attr(
                fragment,
                "div.tgxtablecell:nth-of-type(5) > a:last-of-type",
                "href",
            ),
            "",
        );
        let post_link = or_string(crate::scrape::join_url(base_url, post_href.as_str()), "");
        let hash = match crate::strutil::nth_segment(torrent_link.as_str(), '/', 4) {
            Option::Some(h) => h,
            Option::None => String::from_str("unknown"),
        };
        let file_name = hash.concat(".torrent");
        let uploader = or_string(
            crate::scrape::select_first_text(
                fragment,
                "div.tgxtablecell:nth-of-type(7) > span > a > span",
            ),
            "???",
        );
        let uploader_status = or_string(
            crate::scrape::select_first_attr(
                fragment,
                "div.tgxtablecell:nth-of-type(7) > span > a",
                "title",
            ),
            "",
        );
        let lang = or_string(
            crate::scrape::select_first_attr(
                fragment,
                "div.tgxtablecell:nth-of-type(3) > img",
                "title",
            ),
            "",
        );
        let icon = tgx_icon(cat);
        Item {
            id: i,
            title,
            date,
            seeders,
            leechers,
            downloads,
            size,
            bytes,
            torrent_link,
            magnet_link,
            post_link,
            file_name,
            category: cat,
            icon,
            item_type,
            uploader,
            uploader_status,
            lang,
        }
    }

    /// Reads a fetched page into a result set: one normalized item per
    /// located row, and pagination from the count badge with the documented
    /// defaults. Fails with a parse error only where neither a row nor the
    /// badge can be located — the page is no result list at all.
    pub fn parse_response(content: &str, base_url: &str, page: usize) -> (r: Result<
        ResultSet,
        FetchError,
    >)
        ensures
            ({
                let frags = fragments_of(content@, "div.tgxtablerow"@);
                let badge = first_inner_html_of(content@, "div#filterbox2 > span.badge"@);
                match r {
                    Result::Ok(rs) => {
                        &&& !(frags.len() == 0 && badge is None)
                        &&& rs.items@.len() == frags.len()
                        &&& forall|i: int|
                            0 <= i < frags.len() ==> item_matches(
                                #[trigger] rs.items@[i],
                                i,
                                frags[i],
                                base_url@,
                            )
                        &&& rs.pagination.current_page == page
                        &&& rs.pagination.last_page == pagination_of(badge, frags.len() as int).0
                        &&& rs.pagination.total_results == pagination_of(
                            badge,
                            frags.len() as int,
                        ).1
                    },
                    Result::Err(e) => frags.len() == 0 && badge is None && e is Parse,
                }
            }),
    {
        let frags = crate::scrape::select_fragments(content, "div.tgxtablerow");
        let badge = crate::scrape::select_first_inner_html(
            content,
            "div#filterbox2 > span.badge",
        );
        if frags.len() == 0 && badge.is_none() {
            return Result::Err(
                FetchError::Parse(String::from_str("no result list found in the page")),
            );
        }
        let mut items: Vec<Item> = Vec::new();
        let n = frags.len();
        let mut i: usize = 0;
        while i < n
            invariant
                n == frags@.len(),
                frags.deep_view() == fragments_of(content@, "div.tgxtablerow"@),
                0 <= i <= n,
                items@.len() == i,
                forall|j: int|
                    0 <= j < i ==> item_matches(
                        #[trigger] items@[j],
                        j,
                        fragments_of(content@, "div.tgxtablerow"@)[j],
                        base_url@,
                    ),
            decreases n - i,
        {
            let it = Self::extract_item(i, frags[i].as_str(), base_url);
            proof {
                assert(frags@[i as int]@ == fragments_of(content@, "div.tgxtablerow"@)[i as int]);
            }
            items.push(it);
            i = i + 1;
        }
        let (last_page, total_results) = compute_pagination(&badge, n);
        Result::Ok(
            ResultSet {
                items,
                pagination: Pagination { current_page: page, last_page, total_results },
            },
        )
    }
}

/// Whether one cell carries exactly the given content, color and alignment.
pub open spec fn cell_is(c: ResultCell, content: Seq<char>, color: Color, align: Alignment) -> bool {
    &&& c.content@ == content
    &&& c.color == color
    &&& c.align == align
}

/// The title color of an item: by its trust level, through the theme.
pub open spec fn type_color(t: ItemType, th: Theme) -> Color {
    match t {
        ItemType::Trusted => th.trusted,
        ItemType::Remake => th.remake,
        ItemType::Normal => th.fg,
    }
}

/// The uploader color: the status's semantic color, else the plain
/// foreground.
pub open spec fn status_fg(s: Seq<char>, th: Theme) -> Color {
    match status_color_of(s) {
        Option::Some(c) => c,
        Option::None => th.fg,
    }
}

/// How one rendered row relates to its item: category icon, language code,
/// title, uploader, size, date, seeders, leechers and shortened view count,
/// with numeric columns right-aligned and semantic colors from the theme.
pub open spec fn row_matches(row: ResultRow, it: Item, th: Theme) -> bool {
    &&& row.cells@.len() == 9
    &&& cell_is(row.cells@[0], it.icon.label@, it.icon.color, Alignment::Left)
    &&& cell_is(row.cells@[1], lang_code(it.lang@), th.fg, Alignment::Left)
    &&& cell_is(row.cells@[2], it.title@, type_color(it.item_type, th), Alignment::Left)
    &&& cell_is(row.cells@[3], it.uploader@, status_fg(it.uploader_status@, th), Alignment::Left)
    &&& cell_is(row.cells@[4], it.size@, th.fg, Alignment::Right)
    &&& cell_is(row.cells@[5], it.date@, th.fg, Alignment::Left)
    &&& cell_is(row.cells@[6], dec_of(it.seeders as nat), th.trusted, Alignment::Right)
    &&& cell_is(row.cells@[7], dec_of(it.leechers as nat), th.remake, Alignment::Right)
    &&& cell_is(row.cells@[8], shortened(it.downloads), th.fg, Alignment::Left)
}

/// The longest date string over the items.
pub open spec fn max_date_w(items: Seq<Item>) -> int
    decreases items.len(),
{
    if items.len() == 0 {
        0
    } else {
        let m = max_date_w(items.drop_last());
        if items.last().date@.len() > m {
            items.last().date@.len() as int
        } else {
            m
        }
    }
}

/// The longest uploader name over the items.
pub open spec fn max_uploader_w(items: Seq<Item>) -> int
    decreases items.len(),
{
    if items.len() == 0 {
        0
    } else {
        let m = max_uploader_w(items.drop_last());
        if items.last().uploader@.len() > m {
            items.last().uploader@.len() as int
        } else {
            m
        }
    }
}

/// The date column's width: the longest date, floored at 6, clamped to the
/// render layer's width type.
pub open spec fn date_width_of(items: Seq<Item>) -> u16 {
    let m = max_date_w(items);
    let w = if m < 6 {
        6int
    } else {
        m
    };
    if w > u16::MAX {
        u16::MAX
    } else {
        w as u16
    }
}

/// The uploader column's width: the longest name, floored at 8, clamped.
pub open spec fn uploader_width_of(items: Seq<Item>) -> u16 {
    let m = max_uploader_w(items);
    let w = if m < 8 {
        8int
    } else {
        m
    };
    if w > u16::MAX {
        u16::MAX
    } else {
        w as u16
    }
}

/// A sortable column's header label: the label, with a direction indicator
/// on the active sort column.
pub open spec fn sorted_label(
    l: Seq<char>,
    id: u32,
    sid: u32,
    dir: crate::sort::SortDir,
) -> Seq<char> {
    if id == sid {
        if dir is Desc {
            l + "v"@
        } else {
            l + "^"@
        }
    } else {
        l
    }
}

/// The label of header column `c` under the query's active sort.
pub open spec fn header_label(c: int, q: SearchQuery) -> Seq<char> {
    let sid = q.sort.sort as u32;
    if c == 0 {
        "Cat"@
    } else if c == 1 {
        ""@
    } else if c == 2 {
        "Name"@
    } else if c == 3 {
        "Uploader"@
    } else if c == 4 {
        sorted_label("Size"@, 3, sid, q.sort.dir)
    } else if c == 5 {
        sorted_label("Date"@, 0, sid, q.sort.dir)
    } else if c == 6 {
        sorted_label(""@, 1, sid, q.sort.dir)
    } else if c == 7 {
        sorted_label(""@, 2, sid, q.sort.dir)
    } else {
        "Views"@
    }
}

/// The column width bindings handed to the render layer.
pub open spec fn binding_spec(items: Seq<Item>) -> Seq<Constraint> {
    seq![
        Constraint::Length(3),
        Constraint::Length(2),
        Constraint::Min(3),
        Constraint::Length(uploader_width_of(items)),
        Constraint::Length(9),
        Constraint::Length(date_width_of(items)),
        Constraint::Length(4),
        Constraint::Length(4),
        Constraint::Length(5),
    ]
}

/// How the whole derived table relates to the result set, the query and the
/// theme: one row per item in order, the derived widths, and the header with
/// the active sort marked. This pins the table completely, so the derivation
/// is deterministic.
pub open spec fn table_matches(t: ResultTable, items: Seq<Item>, q: SearchQuery, th: Theme) -> bool {
    &&& t.rows@.len() == items.len()
    &&& forall|i: int| 0 <= i < items.len() ==> row_matches(#[trigger] t.rows@[i], items[i], th)
    &&& t.binding@ == binding_spec(items)
    &&& t.headers.cells@.len() == 9
    &&& forall|c: int|
        0 <= c < 9 ==> cell_is(
            #[trigger] t.headers.cells@[c],
            header_label(c, q),
            th.fg,
            Alignment::Left,
        )
}

/// One rendered row for one item.
fn build_row(it: &Item, th: &Theme) -> (r: ResultRow)
    ensures
        row_matches(r, *it, *th),
{
    let mut cells: Vec<ResultCell> = Vec::new();
    cells.push(
        ResultCell {
            content: it.icon.label.clone(),
            color: it.icon.color,
            align: Alignment::Left,
        },
    );
    cells.push(
        ResultCell { content: get_lang(it.lang.clone()), color: th.fg, align: Alignment::Left },
    );
    cells.push(
        ResultCell {
            content: it.title.clone(),
            color: match it.item_type {
                ItemType::Trusted => th.trusted,
                ItemType::Remake => th.remake,
                ItemType::Normal => th.fg,
            },
            align: Alignment::Left,
        },
    );
    cells.push(
        ResultCell {
            content: it.uploader.clone(),
            color: match get_status_color(it.uploader_status.clone()) {
                Option::Some(c) => c,
                Option::None => th.fg,
            },
            align: Alignment::Left,
        },
    );
    cells.push(
        ResultCell { content: it.size.clone(), color: th.fg, align: Alignment::Right },
    );
    cells.push(ResultCell { content: it.date.clone(), color: th.fg, align: Alignment::Left });
    cells.push(
        ResultCell {
            content: u64_to_dec(it.seeders as u64),
            color: th.trusted,
            align: Alignment::Right,
        },
    );
    cells.push(
        ResultCell {
            content: u64_to_dec(it.leechers as u64),
            color: th.remake,
            align: Alignment::Right,
        },
    );
    cells.push(
        ResultCell {
            content: shorten_number(it.downloads),
            color: th.fg,
            align: Alignment::Left,
        },
    );
    ResultRow { cells }
}

impl TorrentGalaxyHtmlSource {
    /// Derives the render-ready table from a result set: widths from the
    /// longest fields, one row per item in result order, and the header
    /// bound to the query's sort. Pure: the same items, query and theme
    /// always derive the same table.
    pub fn format_table(items: &Vec<Item>, search: &SearchQuery, theme: &Theme) -> (t: ResultTable)
        ensures
            table_matches(t, items@, *search, *theme),
    {
        let n = items.len();
        let mut mdw: usize = 0;
        let mut muw: usize = 0;
        let mut i: usize = 0;
        while i < n
            invariant
                n == items@.len(),
                0 <= i <= n,
                mdw == max_date_w(items@.take(i as int)),
                muw == max_uploader_w(items@.take(i as int)),
            decreases n - i,
        {
            proof {
                assert(items@.take(i + 1).drop_last() =~= items@.take(i as int));
                assert(items@.take(i + 1).last() == items@[i as int]);
            }
            let dl = items[i].date.as_str().unicode_len();
            if dl > mdw {
                mdw = dl;
            }
            let ul = items[i].uploader.as_str().unicode_len();
            if ul > muw {
                muw = ul;
            }
            i = i + 1;
        }
        proof {
            assert(items@.take(n as int) =~= items@);
        }
        let dwc: u16 = if mdw > 65535 {
            65535
        } else {
            mdw as u16
        };
        let date_width: u16 = if dwc < 6 {
            6
        } else {
            dwc
        };
        let uwc: u16 = if muw > 65535 {
            65535
        } else {
            muw as u16
        };
        let uploader_width: u16 = if uwc < 8 {
            8
        } else {
            uwc
        };
        proof {
            assert(date_width == date_width_of(items@));
            assert(uploader_width == uploader_width_of(items@));
        }
        let mut cols: Vec<ResultColumn> = Vec::new();
        cols.push(ResultColumn::Normal(String::from_str("Cat"), Constraint::Length(3)));
        cols.push(ResultColumn::Normal(String::new(), Constraint::Length(2)));
        cols.push(ResultColumn::Normal(String::from_str("Name"), Constraint::Min(3)));
        cols.push(
            ResultColumn::Normal(
                String::from_str("Uploader"),
                Constraint::Length(uploader_width),
            ),
        );
        cols.push(ResultColumn::Sorted(String::from_str("Size"), 9, 3));
        cols.push(ResultColumn::Sorted(String::from_str("Date"), date_width, 0));
        cols.push(ResultColumn::Sorted(String::new(), 4, 1));
        cols.push(ResultColumn::Sorted(String::new(), 4, 2));
        cols.push(ResultColumn::Normal(String::from_str("Views"), Constraint::Length(5)));
        let header = ResultHeader { cols };
        let binding = header.get_binding();
        proof {
            assert(binding@[0] == crate::results::col_binding(header.cols@[0]));
            assert(binding@[1] == crate::results::col_binding(header.cols@[1]));
            assert(binding@[2] == crate::results::col_binding(header.cols@[2]));
            assert(binding@[3] == crate::results::col_binding(header.cols@[3]));
            assert(binding@[4] == crate::results::col_binding(header.cols@[4]));
            assert(binding@[5] == crate::results::col_binding(header.cols@[5]));
            assert(binding@[6] == crate::results::col_binding(header.cols@[6]));
            assert(binding@[7] == crate::results::col_binding(header.cols@[7]));
            assert(binding@[8] == crate::results::col_binding(header.cols@[8]));
            assert(binding@ =~= binding_spec(items@));
        }
        let sid: u32 = search.sort.sort as u32;
        let headers = header.get_row(search.sort.dir, sid, theme.fg);
        proof {
            reveal_strlit("");
            assert(""@ =~= Seq::<char>::empty());
            assert forall|c: int| 0 <= c < 9 implies cell_is(
                #[trigger] headers.cells@[c],
                header_label(c, *search),
                theme.fg,
                Alignment::Left,
            ) by {
                assert(headers.cells@[c].content@ == crate::results::col_label(
                    header.cols@[c],
                    search.sort.dir,
                    sid,
                ));
                if c == 0 {
                } else if c == 1 {
                } else if c == 2 {
                } else if c == 3 {
                } else if c == 4 {
                } else if c == 5 {
                } else if c == 6 {
                } else if c == 7 {
                }
            }
        }
        let mut rows: Vec<ResultRow> = Vec::new();
        let mut i: usize = 0;
        while i < n
            invariant
                n == items@.len(),
                0 <= i <= n,
                rows@.len() == i,
                forall|j: int|
                    0 <= j < i ==> row_matches(#[trigger] rows@[j], items@[j], *theme),
            decreases n - i,
        {
            rows.push(build_row(&items[i], theme));
            i = i + 1;
        }
        ResultTable { headers, rows, binding }
    }
}

impl crate::source::Sources {
    /// Derives the table through the selected adapter.
    pub fn format_table(&self, items: &Vec<Item>, search: &SearchQuery, theme: &Theme) -> (t:
        ResultTable)
        ensures
            table_matches(t, items@, *search, *theme),
    {
        match self {
            crate::source::Sources::TorrentGalaxy => TorrentGalaxyHtmlSource::format_table(
                items,
                search,
                theme,
            ),
        }
    }
}

/// One cell reduced to its plain data.
pub open spec fn cell_view(c: ResultCell) -> (Seq<char>, Color, Alignment) {
    (c.content@, c.color, c.align)
}

/// One row reduced to its plain data.
pub open spec fn row_view(r: ResultRow) -> Seq<(Seq<char>, Color, Alignment)> {
    Seq::new(r.cells@.len(), |i: int| cell_view(r.cells@[i]))
}

/// The whole table reduced to its plain data: header, rows, widths.
pub open spec fn table_view(t: ResultTable) -> (
    Seq<(Seq<char>, Color, Alignment)>,
    Seq<Seq<(Seq<char>, Color, Alignment)>>,
    Seq<Constraint>,
) {
    (row_view(t.headers), Seq::new(t.rows@.len(), |i: int| row_view(t.rows@[i])), t.binding@)
}

/// Deterministic table derivation: any two tables derived from the same
/// items, query and theme carry identical headers, rows and widths.
pub proof fn lemma_table_derivation_deterministic(
    t1: ResultTable,
    t2: ResultTable,
    items: Seq<Item>,
    q: SearchQuery,
    th: Theme,
)
    requires
        table_matches(t1, items, q, th),
        table_matches(t2, items, q, th),
    ensures
        table_view(t1) == table_view(t2),
{
    assert(row_view(t1.headers) =~= row_view(t2.headers));
    assert forall|i: int| 0 <= i < items.len() implies row_view(t1.rows@[i]) == row_view(
        t2.rows@[i],
    ) by {
        assert(row_matches(t1.rows@[i], items[i], th));
        assert(row_matches(t2.rows@[i], items[i], th));
        assert(row_view(t1.rows@[i]) =~= row_view(t2.rows@[i]));
    }
    assert(Seq::new(t1.rows@.len(), |i: int| row_view(t1.rows@[i])) =~= Seq::new(
        t2.rows@.len(),
        |i: int| row_view(t2.rows@[i]),
    ));
}

/// The option's string, or the default.
fn or_string(o: Option<String>, d: &str) -> (r: String)
    ensures
        r@ == (match o {
            Option::Some(s) => s@,
            Option::None => d@,
        }),
{
    match o {
        Option::Some(s) => s,
        Option::None => String::from_str(d),
    }
}

/// Reads the category id out of a category link.
fn cat_from_href(raw: &str) -> (r: usize)
    ensures
        r == cat_id_of(raw@),
{
    let li = match crate::strutil::rfind_char(raw, '=') {
        Option::None => {
            return 0;
        },
        Option::Some(li) => li,
    };
    let n = raw.unicode_len();
    let p = raw.substring_char(li + 1, n);
    proof {
        assert(p@ =~= raw@.skip(li + 1));
    }
    match crate::strutil::parse_u64(p) {
        Option::None => 0,
        Option::Some(v) => {
            if v <= usize::MAX as u64 {
                v as usize
            } else {
                0
            }
        },
    }
}

/// Derives pagination from the count badge and the number of located rows.
fn compute_pagination(badge: &Option<String>, n_items: usize) -> (r: (usize, usize))
    ensures
        r.0 == pagination_of(
            match badge {
                Option::Some(s) => Option::Some(s@),
                Option::None => Option::None,
            },
            n_items as int,
        ).0,
        r.1 == pagination_of(
            match badge {
                Option::Some(s) => Option::Some(s@),
                Option::None => Option::None,
            },
            n_items as int,
        ).1,
{
    match badge {
        Option::None => {
            if n_items == 0 {
                (0, 0)
            } else {
                (50, 2500)
            }
        },
        Option::Some(t) => {
            let d = crate::strutil::digits_only(t.as_str());
            proof {
                crate::strutil::lemma_filter_digits_all(t@);
            }
            match crate::strutil::parse_u64(d.as_str()) {
                Option::Some(v) if v <= usize::MAX as u64 => {
                    let num = v as usize;
                    if num != 0 || n_items == 0 {
                        let lp = num / 50 + (if num % 50 != 0 {
                            1
                        } else {
                            0
                        });
                        proof {
                            assert(lp == (num + 49) / 50) by (nonlinear_arith)
                                requires
                                    num >= 0,
                                    lp == num / 50 + (if num % 50 != 0 {
                                        1int
                                    } else {
                                        0int
                                    }),
                            ;
                        }
                        (lp, num)
                    } else {
                        (50, 2500)
                    }
                },
                _ => {
                    if n_items == 0 {
                        (0, 0)
                    } else {
                        (50, 2500)
                    }
                },
            }
        },
    }
}

} // verus!

