use vstd::prelude::*;

use rspotify_model::idtypes::{AlbumId, ArtistId, IdError, PlaylistId};

use crate::model::{LinkKind, link_kind_path, spotify_word, uri_of};

verus! {

#[verifier::external_type_specification]
#[verifier::external_body]
pub struct ExIdError(IdError);

pub open spec fn is_ascii_alnum(c: char) -> bool {
    ('0' <= c && c <= '9') || ('a' <= c && c <= 'z') || ('A' <= c && c <= 'Z')
}

/// An id made of ASCII letters and digits only (possibly none).
pub open spec fn is_alnum_id(id: Seq<char>) -> bool {
    forall|i: int| 0 <= i < id.len() ==> is_ascii_alnum(#[trigger] id[i])
}

/// The id that a URI of this kind names: the URI is `spotify`, a
/// separator (`:` or `/`), the kind, the same separator, and an id of
/// ASCII letters and digits.
pub open spec fn id_of_uri(kind: LinkKind, uri: Seq<char>) -> Option<Seq<char>> {
    let k = link_kind_path(kind);
    let n = k.len() as int;
    let start = 9 + n;
    if uri.len() >= start && uri.subrange(0, 7) == spotify_word() && (uri[7] == ':' || uri[7]
        == '/') && uri.subrange(8, 8 + n) == k && uri[8 + n] == uri[7] && is_alnum_id(
        uri.subrange(start, uri.len() as int),
    ) {
        Some(uri.subrange(start, uri.len() as int))
    } else {
        None
    }
}

/// Relies on rspotify_model's `AlbumId::from_uri`: accepts exactly
/// `spotify:album:<id>` or `spotify/album/<id>` with an alphanumeric id,
/// and returns the id.
#[verifier::external_body]
pub(crate) fn album_id_from_uri(uri: &str) -> (r: Result<String, IdError>)
    ensures
        r is Ok <==> id_of_uri(LinkKind::Album, uri@) is Some,
        r is Ok ==> id_of_uri(LinkKind::Album, uri@) == Some(r->Ok_0@),
{
    match AlbumId::from_uri(uri) {
        Ok(id) => Ok(rspotify_model::Id::id(&id).to_string()),
        Err(e) => Err(e),
    }
}

/// Relies on rspotify_model's `ArtistId::from_uri`: accepts exactly
/// `spotify:artist:<id>` or `spotify/artist/<id>` with an alphanumeric
/// id, and returns the id.
#[verifier::external_body]
pub(crate) fn artist_id_from_uri(uri: &str) -> (r: Result<String, IdError>)
    ensures
        r is Ok <==> id_of_uri(LinkKind::Artist, uri@) is Some,
        r is Ok ==> id_of_uri(LinkKind::Artist, uri@) == Some(r->Ok_0@),
{
    match ArtistId::from_uri(uri) {
        Ok(id) => Ok(rspotify_model::Id::id(&id).to_string()),
        Err(e) => Err(e),
    }
}

/// Relies on rspotify_model's `PlaylistId::from_uri`: accepts exactly
/// `spotify:playlist:<id>` or `spotify/playlist/<id>` with an
/// alphanumeric id, and returns the id.
#[verifier::external_body]
pub(crate) fn playlist_id_from_uri(uri: &str) -> (r: Result<String, IdError>)
    ensures
        r is Ok <==> id_of_uri(LinkKind::Playlist, uri@) is Some,
        r is Ok ==> id_of_uri(LinkKind::Playlist, uri@) == Some(r->Ok_0@),
{
    match PlaylistId::from_uri(uri) {
        Ok(id) => Ok(rspotify_model::Id::id(&id).to_string()),
        Err(e) => Err(e),
    }
}

/// A URI built from an id parses back to that id exactly when the id is
/// alphanumeric.
pub proof fn built_uri_parses_back(kind: LinkKind, id: Seq<char>)
    ensures
        id_of_uri(kind, uri_of(kind, id)) == if is_alnum_id(id) {
            Some(id)
        } else {
            None::<Seq<char>>
        },
{
    let u = uri_of(kind, id);
    let k = link_kind_path(kind);
    let n = k.len() as int;
    let start = 9 + n;
    assert(u.subrange(0, 7) =~= spotify_word());
    assert(u[7] == ':');
    assert(u.subrange(8, 8 + n) =~= k);
    assert(u[8 + n] == ':');
    assert(u.subrange(start, u.len() as int) =~= id);
}

} // verus!
