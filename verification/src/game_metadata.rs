//! The metadata block the game runtime reads, derived from a manifest.

use vstd::prelude::*;
use vstd::string::*;
use crate::config::Config;

verus! {

/// The fields of the runtime's metadata file, as plain values.
pub struct GameMetadata {
    pub devid: String,
    pub devtitle: String,
    pub gameid: String,
    pub gametitle: String,
    pub version: String,
    pub icon: String,
    pub compile_ruby: bool,
}

/// The declared authors joined into one line by single spaces.
pub open spec fn spec_authors_line(authors: Seq<Seq<char>>) -> Seq<char>
    decreases authors.len(),
{
    if authors.len() == 0 {
        Seq::empty()
    } else if authors.len() == 1 {
        authors[0]
    } else {
        spec_authors_line(authors.drop_last()) + seq![' '] + authors.last()
    }
}

fn authors_line(authors: &Vec<String>) -> (r: String)
    ensures
        r@ == spec_authors_line(authors@.map_values(|a: String| a@)),
{
    let ghost gs = authors@.map_values(|a: String| a@);
    let mut s = String::new();
    let mut i: usize = 0;
    while i < authors.len()
        invariant
            i <= authors.len(),
            gs == authors@.map_values(|a: String| a@),
            gs.len() == authors@.len(),
            s@ == spec_authors_line(gs.take(i as int)),
        decreases authors.len() - i,
    {
        let ghost s0 = s@;
        if i > 0 {
            s.append(" ");
        }
        s.append(authors[i].as_str());
        proof {
            assert(gs.take(i + 1).drop_last() =~= gs.take(i as int));
            assert(gs.take(i + 1).last() == gs[i as int]);
            if i == 0 {
                assert(s@ =~= spec_authors_line(gs.take(1)));
            } else {
                reveal_strlit(" ");
                assert(" "@ =~= seq![' ']);
                assert(gs[i as int] == authors@[i as int]@);
                assert(s@ =~= s0 + seq![' '] + gs[i as int]);
            }
        }
        i = i + 1;
    }
    proof {
        assert(gs.take(gs.len() as int) =~= gs);
    }
    s
}

/// Derives the runtime metadata from a project manifest: the project's own
/// fields carry over, the authors are joined into one line, and the
/// developer id is the itch.io user name when one is configured, else the
/// community default.
pub fn from_config(config: &Config) -> (r: GameMetadata)
    requires
        config.project is Some,
    ensures
        ({
            let project = config.project->0;
            &&& r.gameid@ == project.name@
            &&& r.gametitle@ == project.title@
            &&& r.version@ == project.version@
            &&& r.icon@ == project.icon@
            &&& r.compile_ruby == project.compile_ruby
            &&& r.devtitle@ == spec_authors_line(project.authors@.map_values(|a: String| a@))
            &&& r.devid@ == (if config.itch is Some {
                config.itch->0.username@
            } else {
                "dragonrider"@
            })
        }),
{
    let project = match &config.project {
        Some(project) => project,
        None => {
            proof {
                assert(false);
            }
            unreached()
        },
    };
    let devid = match &config.itch {
        Some(itch) => itch.username.clone(),
        None => String::from_str("dragonrider"),
    };
    GameMetadata {
        devid,
        devtitle: authors_line(&project.authors),
        gameid: project.name.clone(),
        gametitle: project.title.clone(),
        version: project.version.clone(),
        icon: project.icon.clone(),
        compile_ruby: project.compile_ruby,
    }
}

} // verus!
