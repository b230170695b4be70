//! The text of the bot's replies.

use vstd::prelude::*;
use vstd::string::*;
use vstd::utf8::*;

use crate::source::Platform;
use crate::text::{
    clock_text, cut_bytes, cuttable, decimal, digit_char, format_duration, push_decimal,
    truncate_bytes,
};
use crate::voice::VoiceTarget;

verus! {

/// Reply to a play request of an author in no voice channel.
pub const NOT_IN_VOICE: &'static str = "No estas en ningún canal de voz.";

/// Reply to a play request of an author in another channel than the bot.
pub const NOT_IN_BOT_CHANNEL: &'static str = "No estas en el mismo canal de voz que el bot";

/// Reply to a skip or stop request that the voice check refused.
pub const CHECK_REFUSED: &'static str = "No estas en el mismo canal de voz que el bot.";

/// Reply when no audio source could be found for a play request.
pub const SOURCE_NOT_FOUND: &'static str =
    "No se pudo obtener la fuente de audio. Si buscaste con palabras, intenta introducir un link.";

/// Reply to a skip that succeeded.
pub const SKIPPED: &'static str = "Se salteo correctamente la canción actual.";

/// Reply to a skip that failed.
pub const SKIP_FAILED: &'static str = "Ocurrió un error al saltear la canción.";

/// Reply to a stop of a queue.
pub const STOPPED: &'static str = "Se paró la lista correctamente.";

/// Reply to a stop without a queue.
pub const NO_QUEUE: &'static str = "No hay ningúna lista de reproducción actualmente";

/// Reply to a queue request while the queue is empty.
pub const EMPTY_QUEUE: &'static str = "No hay cosas en la lista";

/// The platform badge of a Spotify source found on YouTube.
pub const SPOTIFY_BADGE: &'static str =
    "<:Spotify:1029496613481234534> ||(<:YouTube:1029496735816482866>)||";

/// The platform badge of a YouTube source.
pub const YOUTUBE_BADGE: &'static str = "<:YouTube:1029496735816482866>";

/// The colour of the bot's embeds (orange).
pub const EMBED_COLOR: u32 = 0xE67E22;

/// The most bytes of a track title shown in a reply.
pub const TITLE_LIMIT: usize = 128;

/// The reply to a play request for its voice target: none when the bot can
/// connect.
pub fn voice_reply(target: VoiceTarget) -> (res: Option<&'static str>)
    ensures
        match target {
            VoiceTarget::NotInVoice => res == Some(NOT_IN_VOICE),
            VoiceTarget::OtherChannel => res == Some(NOT_IN_BOT_CHANNEL),
            VoiceTarget::Join(_) => res is None,
        },
{
    match target {
        VoiceTarget::NotInVoice => Some(NOT_IN_VOICE),
        VoiceTarget::OtherChannel => Some(NOT_IN_BOT_CHANNEL),
        VoiceTarget::Join(_) => None,
    }
}

/// The reply to a skip or stop request, by whether the voice check let the
/// author through: none when it did.
pub fn check_reply(allowed: bool) -> (res: Option<&'static str>)
    ensures
        res == if allowed {
            None
        } else {
            Some(CHECK_REFUSED)
        },
{
    if allowed {
        None
    } else {
        Some(CHECK_REFUSED)
    }
}

/// The text reply to a play request once its source is resolved: none when
/// a source was found through a platform (the track is announced instead),
/// the not-found note otherwise.
pub fn source_reply(platform: Option<Platform>) -> (res: Option<&'static str>)
    ensures
        res == match platform {
            Some(_) => None,
            None => Some(SOURCE_NOT_FOUND),
        },
{
    match platform {
        Some(_) => None,
        None => Some(SOURCE_NOT_FOUND),
    }
}

/// The reply to a skip, by whether the queue could skip.
pub fn skip_reply(skipped: bool) -> (res: &'static str)
    ensures
        res == if skipped {
            SKIPPED
        } else {
            SKIP_FAILED
        },
{
    if skipped {
        SKIPPED
    } else {
        SKIP_FAILED
    }
}

/// The reply to a stop, by whether the guild had a call whose queue stopped.
pub fn stop_reply(had_call: bool) -> (res: &'static str)
    ensures
        res == if had_call {
            STOPPED
        } else {
            NO_QUEUE
        },
{
    if had_call {
        STOPPED
    } else {
        NO_QUEUE
    }
}

/// The listing of a queue: for each title, in order, a new line, its
/// position counted from one, `. ` and the title.
pub open spec fn queue_listing(titles: Seq<Seq<char>>) -> Seq<char>
    decreases titles.len(),
{
    if titles.len() == 0 {
        seq![]
    } else {
        queue_listing(titles.drop_last()) + seq!['\n'] + decimal(titles.len()) + ". "@
            + titles.last()
    }
}

/// The reply to a queue request: the listing of the titles, or a note that
/// the queue is empty.
pub fn queue_reply(titles: &Vec<String>) -> (res: String)
    requires
        titles.len() <= i32::MAX,
    ensures
        res@ == if titles.len() == 0 {
            EMPTY_QUEUE@
        } else {
            queue_listing(titles.deep_view())
        },
{
    if titles.len() == 0 {
        return String::from_str(EMPTY_QUEUE);
    }
    let ghost all = titles.deep_view();
    let mut out = String::new();
    let mut i: usize = 0;
    proof {
        reveal_strlit("\n");
        assert(all.take(0) =~= Seq::<Seq<char>>::empty());
    }
    while i < titles.len()
        invariant
            i <= titles.len(),
            all == titles.deep_view(),
            out@ == queue_listing(all.take(i as int)),
        decreases titles.len() - i,
    {
        proof {
            reveal_strlit("\n");
            assert(all.take(i + 1).drop_last() =~= all.take(i as int));
        }
        out.append("\n");
        push_decimal(&mut out, (i + 1) as u64);
        out.append(". ");
        out.append(titles[i].as_str());
        i = i + 1;
    }
    proof {
        assert(all.take(i as int) =~= all);
    }
    out
}

/// What a reply about a queued track shows of it.
pub struct TrackMetadata {
    pub title: Option<String>,
    pub artist: Option<String>,
    pub duration_secs: Option<u64>,
    pub source_url: Option<String>,
    pub thumbnail: Option<String>,
}

/// A field of an embed.
pub struct EmbedField {
    pub name: String,
    pub value: String,
    pub inline: bool,
}

/// The embed that announces a queued track.
pub struct ReplyEmbed {
    pub title: String,
    pub url: String,
    pub thumbnail: String,
    pub author_name: String,
    pub author_icon: String,
    pub fields: Vec<EmbedField>,
    pub color: u32,
}

/// The text of an optional value, or `default`.
pub open spec fn text_or(value: Option<String>, default: Seq<char>) -> Seq<char> {
    match value {
        Some(v) => v@,
        None => default,
    }
}

/// The platform badge shown for `platform`.
pub open spec fn badge_text(platform: Platform) -> Seq<char> {
    match platform {
        Platform::Spotify => SPOTIFY_BADGE@,
        Platform::YouTube => YOUTUBE_BADGE@,
    }
}

/// Whether a queued track can be announced: it has a duration, and its
/// title can be cut to `TITLE_LIMIT` bytes.
pub open spec fn announceable(meta: TrackMetadata) -> bool {
    &&& meta.duration_secs is Some
    &&& meta.title matches Some(t) ==> cuttable(t@, TITLE_LIMIT as nat)
}

fn text_or_default(value: &Option<String>, default: &str) -> (res: String)
    ensures
        res@ == text_or(*value, default@),
{
    match value {
        Some(v) => v.clone(),
        None => String::from_str(default),
    }
}

/// The embed announcing a queued track: its title (cut to `TITLE_LIMIT`
/// bytes, `N/A` when it has none) linking to its source, its thumbnail, the
/// member who queued it, and the fields channel, duration and platform.
pub fn formatted_reply(meta: &TrackMetadata, author_icon: &str, platform: Platform) -> (res:
    ReplyEmbed)
    requires
        announceable(*meta),
    ensures
        encode_utf8(res.title@) == cut_bytes(text_or(meta.title, "N/A"@), TITLE_LIMIT as nat),
        res.url@ == text_or(meta.source_url, seq![]),
        res.thumbnail@ == text_or(meta.thumbnail, seq![]),
        res.author_name@ == "Agregó a la lista..."@,
        res.author_icon@ == author_icon@,
        res.fields@.len() == 3,
        res.fields@[0].name@ == "Canal"@,
        res.fields@[0].value@ == text_or(meta.artist, "N/A"@),
        res.fields@[1].name@ == "Duración"@,
        res.fields@[1].value@ == clock_text(meta.duration_secs->0 as nat),
        res.fields@[2].name@ == "Plataforma"@,
        res.fields@[2].value@ == badge_text(platform),
        forall|i: int| 0 <= i < 3 ==> #[trigger] res.fields@[i].inline,
        res.color == EMBED_COLOR,
{
    let secs = match meta.duration_secs {
        Some(d) => d,
        None => 0,
    };
    let duration = format_duration(secs);
    let mut title = text_or_default(&meta.title, "N/A");
    proof {
        reveal_strlit("N/A");
        reveal_strlit("");
        is_ascii_chars_encode_utf8("N/A"@);
    }
    truncate_bytes(&mut title, TITLE_LIMIT);
    let badge = match platform {
        Platform::Spotify => String::from_str(SPOTIFY_BADGE),
        Platform::YouTube => String::from_str(YOUTUBE_BADGE),
    };
    let mut fields: Vec<EmbedField> = Vec::new();
    fields.push(
        EmbedField {
            name: String::from_str("Canal"),
            value: text_or_default(&meta.artist, "N/A"),
            inline: true,
        },
    );
    fields.push(EmbedField { name: String::from_str("Duración"), value: duration, inline: true });
    fields.push(EmbedField { name: String::from_str("Plataforma"), value: badge, inline: true });
    ReplyEmbed {
        title,
        url: text_or_default(&meta.source_url, ""),
        thumbnail: text_or_default(&meta.thumbnail, ""),
        author_name: String::from_str("Agregó a la lista..."),
        author_icon: String::from_str(author_icon),
        fields,
        color: EMBED_COLOR,
    }
}

/// The embed that describes the bot and its build.
pub struct InfoEmbed {
    pub title: String,
    pub thumbnail: String,
    pub url: String,
    pub footer_text: String,
    pub footer_icon: String,
    pub fields: Vec<EmbedField>,
    pub color: u32,
}

/// The title of the bot's description.
pub const INFO_TITLE: &'static str = "DiscoRS 馃";

/// The footer of the bot's description.
pub const INFO_FOOTER: &'static str = "Desarrollado con 鉂わ笍 por BL4D3";

/// The repository the bot's description links to.
pub const INFO_URL: &'static str = "https://github.com/bl4d3tv/DiscoRS";

/// The field names of the bot's description: version, commit hash, build
/// time and build id.
pub const INFO_FIELDS: [&'static str; 4] = [
    "Versi贸n",
    "Hash de confirmaci贸n",
    "Tiempo de compilaci贸n",
    "ID de compilaci贸n",
];

/// The embed describing the bot: its avatar `thumbnail`, a link to its
/// repository, and the fields version, commit hash, build time and build id
/// (not inline), in orange.
pub fn info_embed(
    version: &str,
    git_hash: &str,
    build_timestamp: &str,
    build_id: &str,
    thumbnail: &str,
) -> (res: InfoEmbed)
    ensures
        res.title@ == INFO_TITLE@,
        res.thumbnail@ == thumbnail@,
        res.url@ == INFO_URL@,
        res.footer_text@ == INFO_FOOTER@,
        res.footer_icon@ == Seq::<char>::empty(),
        res.fields@.len() == 4,
        forall|i: int| 0 <= i < 4 ==> #[trigger] res.fields@[i].name@ == INFO_FIELDS[i]@,
        res.fields@[0].value@ == version@,
        res.fields@[1].value@ == git_hash@,
        res.fields@[2].value@ == build_timestamp@,
        res.fields@[3].value@ == build_id@,
        forall|i: int| 0 <= i < 4 ==> !(#[trigger] res.fields@[i]).inline,
        res.color == EMBED_COLOR,
{
    let mut fields: Vec<EmbedField> = Vec::new();
    fields.push(
        EmbedField {
            name: String::from_str(INFO_FIELDS[0]),
            value: String::from_str(version),
            inline: false,
        },
    );
    fields.push(
        EmbedField {
            name: String::from_str(INFO_FIELDS[1]),
            value: String::from_str(git_hash),
            inline: false,
        },
    );
    fields.push(
        EmbedField {
            name: String::from_str(INFO_FIELDS[2]),
            value: String::from_str(build_timestamp),
            inline: false,
        },
    );
    fields.push(
        EmbedField {
            name: String::from_str(INFO_FIELDS[3]),
            value: String::from_str(build_id),
            inline: false,
        },
    );
    InfoEmbed {
        title: String::from_str(INFO_TITLE),
        thumbnail: String::from_str(thumbnail),
        url: String::from_str(INFO_URL),
        footer_text: String::from_str(INFO_FOOTER),
        footer_icon: String::new(),
        fields,
        color: EMBED_COLOR,
    }
}

/// How many times `c` occurs in `s`.
pub open spec fn char_count(s: Seq<char>, c: char) -> nat
    decreases s.len(),
{
    if s.len() == 0 {
        0
    } else {
        char_count(s.drop_last(), c) + if s.last() == c {
            1nat
        } else {
            0nat
        }
    }
}

proof fn lemma_char_count_concat(a: Seq<char>, b: Seq<char>, c: char)
    ensures
        char_count(a + b, c) == char_count(a, c) + char_count(b, c),
    decreases b.len(),
{
    if b.len() == 0 {
        assert(a + b =~= a);
    } else {
        assert((a + b).drop_last() =~= a + b.drop_last());
        lemma_char_count_concat(a, b.drop_last(), c);
    }
}

proof fn lemma_decimal_has_no_newline(n: nat)
    ensures
        char_count(decimal(n), '\n') == 0,
    decreases n,
{
    let d = (n % 10) as int;
    assert(((48 + d) as u32) as char as int == 48 + d);
    assert(decimal(n).last() == digit_char(d));
    assert(digit_char(d) != '\n') by {
        assert('\n' as int == 10);
    }
    if n < 10 {
        assert(decimal(n).drop_last() =~= Seq::<char>::empty());
        assert(char_count(Seq::<char>::empty(), '\n') == 0);
    } else {
        lemma_decimal_has_no_newline(n / 10);
        assert(decimal(n).drop_last() =~= decimal(n / 10));
    }
}

/// Queuing one more track adds exactly one line to the listing, after the
/// others: a new line, its position (the new number of tracks), `. ` and
/// its title, whatever the titles before it are.
pub proof fn lemma_queue_listing_push(titles: Seq<Seq<char>>, title: Seq<char>)
    ensures
        queue_listing(titles.push(title)) == queue_listing(titles) + seq!['\n'] + decimal(
            titles.len() + 1,
        ) + ". "@ + title,
{
    assert(titles.push(title).drop_last() =~= titles);
}

/// The listing has one line per queued track: when no title holds a line
/// break, it holds exactly as many line breaks as there are titles.
pub proof fn lemma_queue_listing_lines(titles: Seq<Seq<char>>)
    requires
        forall|k: int| 0 <= k < titles.len() ==> char_count(#[trigger] titles[k], '\n') == 0,
    ensures
        char_count(queue_listing(titles), '\n') == titles.len(),
    decreases titles.len(),
{
    if titles.len() > 0 {
        let rest = titles.drop_last();
        assert forall|k: int| 0 <= k < rest.len() implies char_count(#[trigger] rest[k], '\n')
            == 0 by {
            assert(rest[k] == titles[k]);
        }
        lemma_queue_listing_lines(rest);
        let a = queue_listing(rest);
        let n = decimal(titles.len());
        reveal_strlit(". ");
        assert(char_count(seq!['\n'], '\n') == 1) by {
            assert(seq!['\n'].drop_last() =~= Seq::<char>::empty());
            assert(char_count(Seq::<char>::empty(), '\n') == 0);
        }
        assert(char_count(". "@, '\n') == 0) by {
            assert(". "@ =~= seq!['.', ' ']);
            assert(seq!['.', ' '].drop_last() =~= seq!['.']);
            assert(seq!['.'].drop_last() =~= Seq::<char>::empty());
            assert(char_count(Seq::<char>::empty(), '\n') == 0);
            assert(char_count(seq!['.'], '\n') == 0);
        }
        lemma_decimal_has_no_newline(titles.len());
        assert(titles.last() == titles[titles.len() - 1]);
        lemma_char_count_concat(a, seq!['\n'], '\n');
        lemma_char_count_concat(a + seq!['\n'], n, '\n');
        lemma_char_count_concat(a + seq!['\n'] + n, ". "@, '\n');
        lemma_char_count_concat(a + seq!['\n'] + n + ". "@, titles.last(), '\n');
    }
}

} // verus!
