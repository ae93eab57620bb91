//! Normalization of per-source game records into catalog entries.
//!
//! Each distribution source scrapes its own installed-game registry and hands
//! back records in its own shape; these functions turn them into `Game`
//! entries with the source tag, launch descriptor and defaults the catalog
//! expects. New entries always arrive with `kids` unset and `hidden` false:
//! the user-owned fields start neutral and are filled in by the user later.

use vstd::prelude::*;

use crate::catalog::{Game, ImageSource, Launcher};
use crate::numfmt::{dec_rep, u64_to_string};

verus! {

/// A record from the Twitch client's installed-game database.
pub struct TwitchRecord {
    /// The product's catalog identifier; becomes the entry's id.
    pub asin: String,
    pub title: String,
    pub image_url: String,
    pub installed: bool,
    pub install_directory: Option<String>,
    pub working_subdir_override: Option<String>,
    pub command: Option<String>,
    pub args: Option<Vec<String>>,
    pub launch_url: Option<String>,
}

/// A record from the Steam client's app registry.
pub struct SteamRecord {
    /// The numeric app id; becomes the entry's id and its launch URL.
    pub id: u64,
    pub title: String,
    /// Path of the locally cached logo image; records without one carry no
    /// usable artwork and are skipped.
    pub logo: Option<String>,
    pub installed: bool,
}

/// A record from the Epic client's installed-game manifests.
pub struct EpicRecord {
    /// The display name doubles as the record's only stable identifier.
    pub display_name: String,
    /// Records without artwork are skipped.
    pub image_url: Option<String>,
    pub install_location: String,
    pub launch_executable: String,
}

/// The catalog entry a Twitch record normalizes to.
pub open spec fn game_of_twitch(r: TwitchRecord) -> Game {
    Game {
        id: r.asin,
        title: r.title,
        image_path: None,
        image_src: ImageSource::Url(r.image_url),
        installed: r.installed,
        kids: None,
        hidden: Some(false),
        players: None,
        launch_url: r.launch_url,
        install_directory: r.install_directory,
        working_subdir_override: r.working_subdir_override,
        command: r.command,
        args: r.args,
        launcher: Launcher::Twitch,
    }
}

/// The characters of the `steam://rungameid/` URL that launches app `id`
/// through the Steam client.
pub open spec fn steam_url(id: u64) -> Seq<char> {
    "steam://rungameid/"@ + dec_rep(id as nat)
}

/// Whether `g` is the catalog entry that the Steam record `r` normalizes to:
/// the numeric app id rendered in decimal becomes the entry id, the logo path
/// the image source, and the launch descriptor is the `steam://` URL.
pub open spec fn steam_game_matches(r: SteamRecord, g: Game) -> bool {
    &&& g.id@ == dec_rep(r.id as nat)
    &&& g.title == r.title
    &&& g.image_path is None
    &&& g.image_src matches ImageSource::Path(p) && p == r.logo.unwrap()
    &&& g.installed == r.installed
    &&& g.kids is None
    &&& g.hidden == Some(false)
    &&& g.players is None
    &&& g.launch_url matches Some(u) && u@ == steam_url(r.id)
    &&& g.install_directory is None
    &&& g.working_subdir_override is None
    &&& g.command is None
    &&& g.args is None
    &&& g.launcher == Launcher::Steam
}

/// The catalog entry an Epic record normalizes to. Epic manifests only exist
/// for installed games, so the entry is always marked installed.
pub open spec fn game_of_epic(r: EpicRecord) -> Game {
    Game {
        id: r.display_name,
        title: r.display_name,
        image_path: None,
        image_src: ImageSource::Url(r.image_url.unwrap()),
        installed: true,
        kids: None,
        hidden: Some(false),
        players: None,
        launch_url: None,
        install_directory: Some(r.install_location),
        working_subdir_override: None,
        command: Some(r.launch_executable),
        args: None,
        launcher: Launcher::Epic,
    }
}

/// The Steam records worth keeping: those that carry a logo, in order.
pub open spec fn steam_kept(s: Seq<SteamRecord>) -> Seq<SteamRecord> {
    s.filter(|rec: SteamRecord| rec.logo is Some)
}

/// The Epic records worth keeping: those that carry artwork, in order.
pub open spec fn epic_kept(s: Seq<EpicRecord>) -> Seq<EpicRecord> {
    s.filter(|rec: EpicRecord| rec.image_url is Some)
}

/// One step of `steam_kept` over a growing prefix: taking one more record
/// appends it exactly when it carries a logo.
proof fn lemma_steam_kept_step(s: Seq<SteamRecord>, t: int)
    requires
        0 <= t < s.len(),
    ensures
        steam_kept(s.take(t + 1)) == if s[t].logo is Some {
            steam_kept(s.take(t)).push(s[t])
        } else {
            steam_kept(s.take(t))
        },
{
    reveal(Seq::filter);
    let pre = s.take(t + 1);
    assert(pre.last() == s[t]);
    assert(pre.drop_last() =~= s.take(t));
    assert(pre.len() > 0);
}

/// One step of `epic_kept` over a growing prefix: taking one more record
/// appends it exactly when it carries artwork.
proof fn lemma_epic_kept_step(s: Seq<EpicRecord>, t: int)
    requires
        0 <= t < s.len(),
    ensures
        epic_kept(s.take(t + 1)) == if s[t].image_url is Some {
            epic_kept(s.take(t)).push(s[t])
        } else {
            epic_kept(s.take(t))
        },
{
    reveal(Seq::filter);
    let pre = s.take(t + 1);
    assert(pre.last() == s[t]);
    assert(pre.drop_last() =~= s.take(t));
    assert(pre.len() > 0);
}

/// Normalizes Twitch records, one entry per record, in order.
pub fn from_twitch(games: Vec<TwitchRecord>) -> (r: Vec<Game>)
    ensures
        r@.len() == games@.len(),
        forall|k: int| 0 <= k < games@.len() ==> r@[k] == game_of_twitch(games@[k]),
{
    let ghost orig = games@;
    let mut games = games;
    let mut r: Vec<Game> = Vec::new();
    while games.len() > 0
        invariant
            r@.len() + games@.len() == orig.len(),
            games@ == orig.skip(r@.len() as int),
            forall|k: int| 0 <= k < r@.len() ==> r@[k] == game_of_twitch(orig[k]),
        decreases games@.len(),
    {
        let ghost t = r@.len() as int;
        proof {
            assert(orig.skip(t)[0] == orig[t]);
            assert(orig.skip(t).remove(0) =~= orig.skip(t + 1));
        }
        let g = games.remove(0);
        r.push(
            Game {
                id: g.asin,
                title: g.title,
                image_path: None,
                image_src: ImageSource::Url(g.image_url),
                installed: g.installed,
                kids: None,
                hidden: Some(false),
                players: None,
                launch_url: g.launch_url,
                install_directory: g.install_directory,
                working_subdir_override: g.working_subdir_override,
                command: g.command,
                args: g.args,
                launcher: Launcher::Twitch,
            },
        );
    }
    r
}

/// The entry for one Steam record that carries a logo.
fn steam_game(rec: SteamRecord) -> (g: Game)
    requires
        rec.logo is Some,
    ensures
        steam_game_matches(rec, g),
{
    proof {
        reveal_strlit("steam://rungameid/");
    }
    let digits = u64_to_string(rec.id);
    let mut url = String::from_str("steam://rungameid/");
    url.append(digits.as_str());
    let logo = rec.logo.unwrap();
    Game {
        id: digits,
        title: rec.title,
        image_path: None,
        image_src: ImageSource::Path(logo),
        installed: rec.installed,
        kids: None,
        hidden: Some(false),
        players: None,
        launch_url: Some(url),
        install_directory: None,
        working_subdir_override: None,
        command: None,
        args: None,
        launcher: Launcher::Steam,
    }
}

/// Normalizes Steam records: records without a logo are skipped (nothing
/// useful can be shown for them yet), the rest become entries in order.
pub fn from_steam(games: Vec<SteamRecord>) -> (r: Vec<Game>)
    ensures
        r@.len() == steam_kept(games@).len(),
        forall|k: int|
            0 <= k < r@.len() ==> steam_game_matches((#[trigger] steam_kept(games@)[k]), r@[k]),
{
    let ghost orig = games@;
    let mut games = games;
    let mut r: Vec<Game> = Vec::new();
    let ghost mut t: int = 0;
    proof {
        reveal(Seq::filter);
        assert(orig.take(0) =~= Seq::<SteamRecord>::empty());
    }
    while games.len() > 0
        invariant
            0 <= t <= orig.len(),
            t + games@.len() == orig.len(),
            games@ == orig.skip(t),
            r@.len() == steam_kept(orig.take(t)).len(),
            forall|k: int|
                0 <= k < r@.len() ==> steam_game_matches(
                    (#[trigger] steam_kept(orig.take(t))[k]),
                    r@[k],
                ),
        decreases games@.len(),
    {
        proof {
            assert(orig.skip(t)[0] == orig[t]);
            assert(orig.skip(t).remove(0) =~= orig.skip(t + 1));
            lemma_steam_kept_step(orig, t);
        }
        let g = games.remove(0);
        if g.logo.is_some() {
            r.push(steam_game(g));
        }
        proof {
            t = t + 1;
        }
    }
    proof {
        assert(orig.take(t) =~= orig);
    }
    r
}

/// Normalizes Epic records: records without artwork are skipped, the rest
/// become entries in order.
pub fn from_epic(games: Vec<EpicRecord>) -> (r: Vec<Game>)
    ensures
        r@.len() == epic_kept(games@).len(),
        forall|k: int|
            0 <= k < r@.len() ==> r@[k] == game_of_epic((#[trigger] epic_kept(games@)[k])),
{
    let ghost orig = games@;
    let mut games = games;
    let mut r: Vec<Game> = Vec::new();
    let ghost mut t: int = 0;
    proof {
        reveal(Seq::filter);
        assert(orig.take(0) =~= Seq::<EpicRecord>::empty());
    }
    while games.len() > 0
        invariant
            0 <= t <= orig.len(),
            t + games@.len() == orig.len(),
            games@ == orig.skip(t),
            r@.len() == epic_kept(orig.take(t)).len(),
            forall|k: int|
                0 <= k < r@.len() ==> r@[k] == game_of_epic(
                    (#[trigger] epic_kept(orig.take(t))[k]),
                ),
        decreases games@.len(),
    {
        proof {
            assert(orig.skip(t)[0] == orig[t]);
            assert(orig.skip(t).remove(0) =~= orig.skip(t + 1));
            lemma_epic_kept_step(orig, t);
        }
        let g = games.remove(0);
        if g.image_url.is_some() {
            let name = g.display_name.clone();
            let image = g.image_url.unwrap();
            r.push(
                Game {
                    id: name,
                    title: g.display_name,
                    image_path: None,
                    image_src: ImageSource::Url(image),
                    installed: true,
                    kids: None,
                    hidden: Some(false),
                    players: None,
                    launch_url: None,
                    install_directory: Some(g.install_location),
                    working_subdir_override: None,
                    command: Some(g.launch_executable),
                    args: None,
                    launcher: Launcher::Epic,
                },
            );
        }
        proof {
            t = t + 1;
        }
    }
    proof {
        assert(orig.take(t) =~= orig);
    }
    r
}

} // verus!
