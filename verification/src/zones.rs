//! The speakers that the backend's zone list names.

use vstd::prelude::*;
use crate::json::elements;
use crate::json::json_elements;
use crate::json::json_member;
use crate::json::json_parsed;
use crate::json::member;
use crate::json::member_text;
use crate::json::nested_unsigned;
use crate::json::text_at;
use crate::json::unsigned_in;
use crate::model::slice_text;
use crate::model::speaker_views;
use crate::model::Exchange;
use crate::model::SonosSpeaker;
use crate::model::SpeakerView;
use crate::status::is_success_code;

verus! {

/// The loudest volume that a speaker has.
pub const MAX_VOLUME: u64 = 100;

/// A reported volume as the speaker record holds it: the number itself
/// where it is a volume, from 0 up to [`MAX_VOLUME`]. A number beyond that
/// is no volume and counts as not reported.
pub open spec fn volume_of(reported: Option<u64>) -> Option<u8> {
    match reported {
        Some(n) => if n <= MAX_VOLUME {
            Some(n as u8)
        } else {
            None
        },
        None => None,
    }
}

/// A speaker's volume is the number that was reported, and at most
/// [`MAX_VOLUME`]: no record holds a volume that the backend did not name.
pub proof fn lemma_volume_is_the_reported_number(reported: Option<u64>)
    ensures
        volume_of(reported) matches Some(v) ==> v <= MAX_VOLUME && reported == Some(v as u64),
        reported matches Some(n) ==> (n <= MAX_VOLUME ==> volume_of(reported) == Some(n as u8)),
        reported matches Some(n) ==> (n > MAX_VOLUME ==> volume_of(reported) is None),
        reported is None ==> volume_of(reported) is None,
{
}

/// The speaker that a room name and a reported volume stand for. Without a
/// room name there is no speaker. The room name is both the speaker's
/// identifier and its display name, and the speaker counts as available.
pub open spec fn speaker_of_fields(room_name: Option<Seq<char>>, volume: Option<u64>) -> Option<
    SpeakerView,
> {
    match room_name {
        Some(room) => Some(
            SpeakerView { id: room, name: room, available: true, volume: volume_of(volume) },
        ),
        None => None,
    }
}

/// The speaker that a zone stands for: the zone's `coordinator` gives the
/// room name under `roomName` and the volume under `state`, `volume`. A
/// zone without a coordinator, or whose coordinator has no room name that
/// is a string, stands for no speaker.
pub open spec fn speaker_of_zone(zone: serde_json::Value) -> Option<SpeakerView> {
    match json_member(zone, "coordinator"@) {
        Some(coordinator) => speaker_of_fields(
            member_text(coordinator, "roomName"@),
            nested_unsigned(coordinator, "state"@, "volume"@),
        ),
        None => None,
    }
}

/// The speakers that a list of zones stands for, in the order of the
/// zones, leaving out the zones that stand for none.
pub open spec fn speakers_of_zones(zones: Seq<serde_json::Value>) -> Seq<SpeakerView>
    decreases zones.len(),
{
    if zones.len() == 0 {
        Seq::empty()
    } else {
        let before = speakers_of_zones(zones.drop_last());
        match speaker_of_zone(zones.last()) {
            Some(speaker) => before.push(speaker),
            None => before,
        }
    }
}

/// The speakers that a zone document stands for. A document that is no
/// array stands for none.
pub open spec fn speakers_of_document(doc: serde_json::Value) -> Seq<SpeakerView> {
    match json_elements(doc) {
        Some(zones) => speakers_of_zones(zones),
        None => Seq::empty(),
    }
}

/// The speakers that the outcome of a zone request stands for: those of the
/// document in the body, where the backend answered with success and the
/// body was read and is a JSON text; none in every other case.
pub open spec fn speakers_of_exchange(exchange: Exchange<Vec<u8>>) -> Seq<SpeakerView> {
    match exchange {
        Exchange::Answered { status, body } => if is_success_code(status) {
            match json_parsed(body@) {
                Some(doc) => speakers_of_document(doc),
                None => Seq::empty(),
            }
        } else {
            Seq::empty()
        },
        Exchange::Unreadable { .. } => Seq::empty(),
        Exchange::Unreachable { .. } => Seq::empty(),
    }
}

/// Builds a speaker from the room name and the volume found in a zone's
/// coordinator, each `None` where there was none.
pub fn speaker_from_fields(room_name: Option<&str>, volume: Option<u64>) -> (speaker: Option<
    SonosSpeaker,
>)
    ensures
        match speaker {
            Some(s) => speaker_of_fields(slice_text(room_name), volume) == Some(s@),
            None => speaker_of_fields(slice_text(room_name), volume) is None,
        },
{
    match room_name {
        Some(room) => {
            let volume = match volume {
                Some(n) => if n <= MAX_VOLUME {
                    Some(n as u8)
                } else {
                    None
                },
                None => None,
            };
            Some(
                SonosSpeaker {
                    id: String::from_str(room),
                    name: String::from_str(room),
                    available: true,
                    volume,
                },
            )
        },
        None => None,
    }
}

/// Reads the speaker that a zone stands for.
pub fn speaker_from_zone(zone: &serde_json::Value) -> (speaker: Option<SonosSpeaker>)
    ensures
        match speaker {
            Some(s) => speaker_of_zone(*zone) == Some(s@),
            None => speaker_of_zone(*zone) is None,
        },
{
    match member(zone, "coordinator") {
        Some(coordinator) => speaker_from_fields(
            text_at(coordinator, "roomName"),
            unsigned_in(coordinator, "state", "volume"),
        ),
        None => None,
    }
}

/// Reads the speakers that a list of zones stands for.
pub fn speakers_from_zones(zones: &Vec<serde_json::Value>) -> (speakers: Vec<SonosSpeaker>)
    ensures
        speaker_views(speakers@) == speakers_of_zones(zones@),
{
    let mut speakers: Vec<SonosSpeaker> = Vec::new();
    let mut i: usize = 0;
    proof {
        assert(zones@.take(0) =~= Seq::<serde_json::Value>::empty());
        assert(speaker_views(speakers@) =~= Seq::<SpeakerView>::empty());
    }
    while i < zones.len()
        invariant
            i <= zones.len(),
            speaker_views(speakers@) == speakers_of_zones(zones@.take(i as int)),
        decreases zones.len() - i,
    {
        proof {
            assert(zones@.take(i + 1).drop_last() =~= zones@.take(i as int));
            assert(zones@.take(i + 1).last() == zones@[i as int]);
        }
        match speaker_from_zone(&zones[i]) {
            Some(speaker) => {
                let ghost before = speakers@;
                speakers.push(speaker);
                proof {
                    assert(speaker_views(speakers@) =~= speaker_views(before).push(speaker@));
                }
            },
            None => {},
        }
        i = i + 1;
    }
    proof {
        assert(zones@.take(zones.len() as int) =~= zones@);
    }
    speakers
}

/// Reads the speakers that a zone document stands for.
pub fn speakers_from_document(doc: &serde_json::Value) -> (speakers: Vec<SonosSpeaker>)
    ensures
        speaker_views(speakers@) == speakers_of_document(*doc),
{
    match elements(doc) {
        Some(zones) => speakers_from_zones(zones),
        None => {
            let speakers: Vec<SonosSpeaker> = Vec::new();
            proof {
                assert(speaker_views(speakers@) =~= Seq::<SpeakerView>::empty());
            }
            speakers
        },
    }
}

/// A zone that stands for no speaker changes nothing: the list gives the
/// same speakers with that zone as without it.
pub proof fn lemma_zone_without_speaker_is_skipped(zones: Seq<serde_json::Value>, i: int)
    requires
        0 <= i < zones.len(),
        speaker_of_zone(zones[i]) is None,
    ensures
        speakers_of_zones(zones) == speakers_of_zones(zones.remove(i)),
    decreases zones.len(),
{
    if i == zones.len() - 1 {
        assert(zones.remove(i) =~= zones.drop_last());
    } else {
        lemma_zone_without_speaker_is_skipped(zones.drop_last(), i);
        assert(zones.remove(i).drop_last() =~= zones.drop_last().remove(i));
        assert(zones.remove(i).last() == zones.last());
    }
}

/// A zone without a `coordinator`, and a zone whose coordinator has no
/// `roomName` that is a string, is skipped: the list gives the same
/// speakers with that zone as without it.
pub proof fn lemma_zone_without_room_name_is_skipped(zones: Seq<serde_json::Value>, i: int)
    requires
        0 <= i < zones.len(),
        match json_member(zones[i], "coordinator"@) {
            Some(coordinator) => member_text(coordinator, "roomName"@) is None,
            None => true,
        },
    ensures
        speakers_of_zones(zones) == speakers_of_zones(zones.remove(i)),
{
    lemma_zone_without_speaker_is_skipped(zones, i);
}

} // verus!
