//! The chat "action" status a bot can signal (typing, uploading a photo,
//! and so on), together with its exact wire spelling.

use vstd::prelude::*;

verus! {

/// Strongly typed chat action. Instead of passing a raw string over the
/// wire interface, one of these closed variants is used; each has exactly
/// one wire spelling.
#[derive(Debug, Clone, Copy, PartialEq, Eq, Structural)]
pub enum ChatAction {
    Typing,
    UploadPhoto,
    RecordVideo,
    UploadVideo,
    RecordAudio,
    UploadAudio,
    UploadDocument,
    FindLocation,
}

impl ChatAction {
    /// The wire spelling of this action, as the remote platform documents it.
    pub open spec fn wire(&self) -> Seq<char> {
        match self {
            ChatAction::Typing => "typing"@,
            ChatAction::UploadPhoto => "upload_photo"@,
            ChatAction::RecordVideo => "record_video"@,
            ChatAction::UploadVideo => "upload_video"@,
            ChatAction::RecordAudio => "record_audio"@,
            ChatAction::UploadAudio => "upload_audio"@,
            ChatAction::UploadDocument => "upload_document"@,
            ChatAction::FindLocation => "find_location"@,
        }
    }

    pub fn wire_str(&self) -> (r: &'static str)
        ensures
            r@ == self.wire(),
    {
        match self {
            ChatAction::Typing => "typing",
            ChatAction::UploadPhoto => "upload_photo",
            ChatAction::RecordVideo => "record_video",
            ChatAction::UploadVideo => "upload_video",
            ChatAction::RecordAudio => "record_audio",
            ChatAction::UploadAudio => "upload_audio",
            ChatAction::UploadDocument => "upload_document",
            ChatAction::FindLocation => "find_location",
        }
    }
}

/// The wire-spelling table is one-to-one: distinct actions never share a
/// spelling, so the wire form of an action identifies it.
pub proof fn lemma_wire_injective(a: ChatAction, b: ChatAction)
    requires
        a.wire() == b.wire(),
    ensures
        a == b,
{
    reveal_strlit("typing");
    reveal_strlit("upload_photo");
    reveal_strlit("record_video");
    reveal_strlit("upload_video");
    reveal_strlit("record_audio");
    reveal_strlit("upload_audio");
    reveal_strlit("upload_document");
    reveal_strlit("find_location");
    if a != b {
        assert(a.wire().len() == b.wire().len());
        assert(a.wire()[0] == b.wire()[0]);
        assert(a.wire()[7] == b.wire()[7]);
        match a {
            ChatAction::Typing => {
                assert(b.wire().len() != 6);
            },
            ChatAction::UploadDocument => {
                assert(b.wire().len() != 15);
            },
            ChatAction::FindLocation => {
                assert(b.wire().len() != 13);
            },
            ChatAction::UploadPhoto => {
                assert(b.wire().len() == 12 ==> b.wire()[0] != 'u' || b.wire()[7] != 'p');
            },
            ChatAction::RecordVideo => {
                assert(b.wire().len() == 12 ==> b.wire()[0] != 'r' || b.wire()[7] != 'v');
            },
            ChatAction::UploadVideo => {
                assert(b.wire().len() == 12 ==> b.wire()[0] != 'u' || b.wire()[7] != 'v');
            },
            ChatAction::RecordAudio => {
                assert(b.wire().len() == 12 ==> b.wire()[0] != 'r' || b.wire()[7] != 'a');
            },
            ChatAction::UploadAudio => {
                assert(b.wire().len() == 12 ==> b.wire()[0] != 'u' || b.wire()[7] != 'a');
            },
        }
        assert(false);
    }
}

} // verus!
