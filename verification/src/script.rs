//! Finding things in the platform's pages and scripts by the text that
//! stands around them.

use vstd::prelude::*;
use vstd::string::StringExecFns;
use crate::error::{Marker, ResolveError};
use crate::text::{chars_of, find, find_first, find_from, lemma_find_from, string_of_range};

verus! {

broadcast use vstd::string::group_string_axioms;

/// The text of `text` that starts where `start` is first found and ends
/// with `end`, found first at or after that place, without its last
/// `overshoot` characters. `None` where one of the two is not found, or
/// where `overshoot` is more than there is to leave out.
pub open spec fn json_slice(text: Seq<char>, start: Seq<char>, end: Seq<char>, overshoot: int) -> Option<
    Seq<char>,
> {
    match find_first(text, start) {
        None => None,
        Some(from) => match find_from(text, end, from) {
            None => None,
            Some(at) => if from <= at + end.len() - overshoot {
                Some(text.subrange(from, at + end.len() - overshoot))
            } else {
                None
            },
        },
    }
}

/// Cuts the JSON text out of `text` that stands between `start_str` and
/// `end_str`, both counted in; `overshoot` says how many characters of
/// `end_str` do not belong to it.
pub fn extract_json(text: &str, start_str: &str, end_str: &str, overshoot: usize) -> (r: Option<
    String,
>)
    ensures
        crate::requests::text_of(r) == json_slice(text@, start_str@, end_str@, overshoot as int),
{
    let v = chars_of(text);
    let start = chars_of(start_str);
    let end = chars_of(end_str);
    let from = match find(&v, &start, 0) {
        Some(at) => at,
        None => {
            return None;
        },
    };
    let at = match find(&v, &end, from) {
        Some(at) => at,
        None => {
            return None;
        },
    };
    proof {
        lemma_find_from(v@, end@, from as int);
        assert(at + end.len() <= v.len());
    }
    let stop = at + end.len();
    if stop < overshoot || stop - overshoot < from {
        return None;
    }
    Some(string_of_range(&v, from, stop - overshoot))
}

/// The address of the page of the video `video_id`.
pub fn watch_url(video_id: &str) -> (r: String)
    ensures
        r@ == "https://www.youtube.com/watch/"@ + video_id@,
{
    let mut r = "https://www.youtube.com/watch/".to_owned();
    r.append(video_id);
    r
}

/// The path of the player script that a video page names: the text from
/// the `/` of the first `c="/` up to the next `"`.
pub open spec fn player_path(page: Seq<char>) -> Result<Seq<char>, ResolveError> {
    match find_first(page, "c=\"/"@) {
        None => Err(ResolveError::MarkerNotFound(Marker::PlayerPath)),
        Some(at) => match find_from(page, "\""@, at + 3) {
            None => Err(ResolveError::MarkerNotFound(Marker::PlayerPathEnd)),
            Some(end) => Ok(page.subrange(at + 3, end)),
        },
    }
}

/// The address of the player script that the video page `page` names.
pub fn player_url(page: &str) -> (r: Result<String, ResolveError>)
    ensures
        match r {
            Ok(url) => player_path(page@) is Ok && url@ == "https://www.youtube.com"@
                + player_path(page@)->Ok_0,
            Err(e) => player_path(page@) == Err::<Seq<char>, ResolveError>(e),
        },
{
    let v = chars_of(page);
    let marker = chars_of("c=\"/");
    let quote = chars_of("\"");
    proof {
        reveal_strlit("c=\"/");
        reveal_strlit("\"");
    }
    let at = match find(&v, &marker, 0) {
        Some(at) => at,
        None => {
            return Err(ResolveError::MarkerNotFound(Marker::PlayerPath));
        },
    };
    proof {
        lemma_find_from(v@, marker@, 0);
        assert(at + 4 <= v.len());
    }
    let end = match find(&v, &quote, at + 3) {
        Some(end) => end,
        None => {
            return Err(ResolveError::MarkerNotFound(Marker::PlayerPathEnd));
        },
    };
    proof {
        lemma_find_from(v@, quote@, at + 3);
    }
    let path = string_of_range(&v, at + 3, end);
    let mut url = "https://www.youtube.com".to_owned();
    url.append(path.as_str());
    Ok(url)
}

/// The helpers that the two functions of the player script lean on.
pub open spec fn helper_block() -> Seq<char> {
    "VF={RV:function(a,b){var c=a[0];a[0]=a[b%a.length];a[b%a.length]=c},p4:function(a,b){a.splice(0,b)},wa:function(a){a.reverse()}};"@
}

/// Where the two functions stand in a player script, and the script with
/// the two functions renamed.
pub struct Located {
    pub script: Seq<char>,
    pub n_start: int,
    pub signature_start: int,
}

/// Finds the two functions in a player script and gives them their fixed
/// names.
///
/// The function for the `n` token is known by `n(a){var b=a.sp` in its
/// head; its name stands 9 characters before that and becomes `f`. The
/// function for signatures is known by `a=a.split("")` without the closing
/// bracket, looked for in the script with the first name changed; its name
/// stands 14 characters before that and becomes `s`.
pub open spec fn located(player: Seq<char>) -> Result<Located, ResolveError> {
    match find_first(player, "n(a){var b=a.sp"@) {
        None => Err(ResolveError::MarkerNotFound(Marker::NFunction)),
        Some(n_at) => if n_at < 9 {
            Err(ResolveError::MarkerNotFound(Marker::NFunction))
        } else {
            let renamed = player.update(n_at - 9, 'f');
            match find_first(renamed, "a=a.split(\"\""@) {
                None => Err(ResolveError::MarkerNotFound(Marker::SignatureFunction)),
                Some(s_at) => if s_at < 14 {
                    Err(ResolveError::MarkerNotFound(Marker::SignatureFunction))
                } else {
                    Ok(
                        Located {
                            script: renamed.update(s_at - 14, 's'),
                            n_start: n_at - 9,
                            signature_start: s_at - 14,
                        },
                    )
                },
            }
        },
    }
}

/// The script to load into the engine: the function for the `n` token
/// from its new name up to the next line that starts with `g`, the helper
/// block, and the function for signatures from its new name up to the next
/// `;` at the end of a line.
pub open spec fn snippet(player: Seq<char>) -> Result<Seq<char>, ResolveError> {
    match located(player) {
        Err(e) => Err(e),
        Ok(found) => match find_from(found.script, "\ng"@, found.n_start) {
            None => Err(ResolveError::MarkerNotFound(Marker::NFunctionEnd)),
            Some(n_end) => match find_from(found.script, ";\n"@, found.signature_start) {
                None => Err(ResolveError::MarkerNotFound(Marker::SignatureFunctionEnd)),
                Some(s_end) => Ok(
                    found.script.subrange(found.n_start, n_end) + helper_block()
                        + found.script.subrange(found.signature_start, s_end),
                ),
            },
        },
    }
}

/// The script to load into the engine, cut out of the player script
/// `player`: under the name `f` the function that uncovers an `n` token,
/// under the name `s` the function that descrambles a signature.
pub fn script_snippet(player: &str) -> (r: Result<String, ResolveError>)
    ensures
        match r {
            Ok(text) => snippet(player@) == Ok::<Seq<char>, ResolveError>(text@),
            Err(e) => snippet(player@) == Err::<Seq<char>, ResolveError>(e),
        },
{
    let mut v = chars_of(player);
    let n_head = chars_of("n(a){var b=a.sp");
    let s_head = chars_of("a=a.split(\"\"");
    let n_tail = chars_of("\ng");
    let s_tail = chars_of(";\n");
    let n_at = match find(&v, &n_head, 0) {
        Some(at) => at,
        None => {
            return Err(ResolveError::MarkerNotFound(Marker::NFunction));
        },
    };
    if n_at < 9 {
        return Err(ResolveError::MarkerNotFound(Marker::NFunction));
    }
    proof {
        lemma_find_from(v@, n_head@, 0);
    }
    let n_start = n_at - 9;
    v.set(n_start, 'f');
    let s_at = match find(&v, &s_head, 0) {
        Some(at) => at,
        None => {
            return Err(ResolveError::MarkerNotFound(Marker::SignatureFunction));
        },
    };
    if s_at < 14 {
        return Err(ResolveError::MarkerNotFound(Marker::SignatureFunction));
    }
    proof {
        lemma_find_from(v@, s_head@, 0);
    }
    let signature_start = s_at - 14;
    v.set(signature_start, 's');
    let n_end = match find(&v, &n_tail, n_start) {
        Some(at) => at,
        None => {
            return Err(ResolveError::MarkerNotFound(Marker::NFunctionEnd));
        },
    };
    let s_end = match find(&v, &s_tail, signature_start) {
        Some(at) => at,
        None => {
            return Err(ResolveError::MarkerNotFound(Marker::SignatureFunctionEnd));
        },
    };
    proof {
        lemma_find_from(v@, n_tail@, n_start as int);
        lemma_find_from(v@, s_tail@, signature_start as int);
    }
    let mut text = string_of_range(&v, n_start, n_end);
    text.append(
        "VF={RV:function(a,b){var c=a[0];a[0]=a[b%a.length];a[b%a.length]=c},p4:function(a,b){a.splice(0,b)},wa:function(a){a.reverse()}};",
    );
    let tail = string_of_range(&v, signature_start, s_end);
    text.append(tail.as_str());
    Ok(text)
}

} // verus!
