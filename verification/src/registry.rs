//! The registry: every reactive cell of the player, built once, with the
//! subscriptions that tie the cells together.

use crate::dispatcher::{no_services, Invocation, MMBSEvent, MMBSList};
use crate::dispatcher::{call_of, is_snapshot, services_of};
use crate::events::{copy_bytes, ImageEvent, Metadata, PlaybackState, ScanEvent, TransferDummy};
use crate::queue::{Queue, QueueItem};
use crate::reactive::ReactiveContainer;
use crate::session::{restore, restored_from, Diagnostic, LastFMState, Session, SessionFile};
use vstd::prelude::*;

verus! {

/// What a decoded image is for.
#[derive(Debug, PartialEq, Eq, Clone, Copy)]
pub enum ImageType {
    CurrentAlbumArt,
}

/// The order of the colour channels that the decoder is to produce.
#[derive(Debug, PartialEq, Eq, Clone, Copy)]
pub enum ImageLayout {
    BGR,
}

/// A decoded image on its way back to the cell that shows it.
#[derive(Debug, PartialEq, Clone)]
pub struct ImageTransfer(pub ImageType, pub Vec<u8>);

/// An order to the image decoder.
#[derive(Debug, PartialEq, Clone)]
pub struct DecodeRequest {
    pub bytes: Vec<u8>,
    pub image_type: ImageType,
    pub layout: ImageLayout,
    pub thumbnail: bool,
}

pub struct Models {
    pub metadata: ReactiveContainer<Metadata>,
    pub albumart: ReactiveContainer<Option<Vec<u8>>>,
    pub queue: ReactiveContainer<Queue>,
    pub image_transfer_model: ReactiveContainer<TransferDummy>,
    pub scan_state: ReactiveContainer<ScanEvent>,
    pub mmbs: ReactiveContainer<MMBSList>,
    pub lastfm: ReactiveContainer<LastFMState>,
}

/// The cells that the playback side fills.
pub struct PlaybackInfo {
    pub position: ReactiveContainer<u64>,
    pub duration: ReactiveContainer<u64>,
    pub playback_state: ReactiveContainer<PlaybackState>,
    pub current_track: ReactiveContainer<Option<String>>,
    pub shuffling: ReactiveContainer<bool>,
}

/// The handles of the subscriptions that the registry is built with.
#[derive(Debug, PartialEq, Eq, Clone, Copy)]
pub struct Wiring {
    /// On the album-art cell: a change orders a decode.
    pub album_art: u64,
    /// On the session cell: a confirmed session is registered and kept.
    pub session: u64,
    /// On the service cell: an event is dispatched to every service.
    pub broadcast: u64,
}

/// A registration of the account's broadcast service: the order to make
/// the service's client.
#[derive(Debug, PartialEq, Clone)]
pub struct Registration {
    /// The handle under which the service is registered.
    pub handle: u64,
    /// The session key that the service's client is to carry.
    pub session: String,
    /// The handle that the account's service had before.
    pub replaced: Option<u64>,
}

/// What `build_models` hands over.
pub struct Built {
    pub models: Models,
    pub playback: PlaybackInfo,
    pub wiring: Wiring,
    /// The registration made for a stored session.
    pub service: Option<Registration>,
    pub diagnostic: Option<Diagnostic>,
}

/// What a confirmed session asks of the surroundings.
pub struct SessionRound {
    /// The session to write, once, over what the session file holds.
    pub persist: Session,
    /// The registration of the account's service, made for the session's
    /// key.
    pub service: Registration,
    /// The subscriptions of the session cell to notify, oldest first.
    pub notify: Vec<u64>,
}

/// What a sign-out asks of the surroundings.
pub struct SignedOut {
    /// The handle of the account's service, which left the dispatcher.
    pub released: Option<u64>,
    /// The subscriptions of the session cell to notify, oldest first.
    pub notify: Vec<u64>,
}

/// What a change of the queue tells its subscriptions.
pub struct QueueRound {
    /// The new length of the queue.
    pub length: usize,
    /// The subscriptions of the queue cell to notify, oldest first.
    pub notify: Vec<u64>,
}

/// The name under which the account's broadcast service is registered.
pub open spec fn lastfm_name() -> Seq<char> {
    "lastfm"@
}

/// The services after the account's service was registered anew under
/// the handle `client`.
pub open spec fn with_lastfm(entries: Map<Seq<char>, u64>, client: u64) -> Map<Seq<char>, u64> {
    entries.insert(lastfm_name(), client)
}

/// The handle registered for the account in `entries`.
pub open spec fn lastfm_handle(entries: Map<Seq<char>, u64>) -> Option<u64> {
    if entries.dom().contains(lastfm_name()) {
        Some(entries[lastfm_name()])
    } else {
        None
    }
}

/// The registration that a run starts with: one for a stored session, made
/// for its key, and none otherwise.
pub open spec fn initial_registration(file: SessionFile, client: u64) -> Option<Registration> {
    match file {
        SessionFile::Stored(session) => Some(
            Registration { handle: client, session: session.key, replaced: None },
        ),
        _ => None,
    }
}

/// The services that a run starts with.
pub open spec fn initial_services(file: SessionFile, client: u64) -> Map<Seq<char>, u64> {
    if file is Stored {
        with_lastfm(no_services(), client)
    } else {
        no_services()
    }
}

/// Registers the account's broadcast service under its name and the
/// handle `client`, in place of one registered before. The answer is the
/// order to make the service's client for the session key `session`, with
/// the handle that was replaced. No subscription is notified.
pub fn create_last_fm_mmbs(
    mmbs_list: &mut ReactiveContainer<MMBSList>,
    session: String,
    client: u64,
) -> (made: Registration)
    ensures
        final(mmbs_list).value.entries() == old(mmbs_list).value.entries().insert(
            lastfm_name(),
            client,
        ),
        final(mmbs_list).value.entries().dom().contains(lastfm_name()),
        final(mmbs_list).subscriptions == old(mmbs_list).subscriptions,
        made == (Registration {
            handle: client,
            session,
            replaced: lastfm_handle(old(mmbs_list).value.entries()),
        }),
{
    let replaced = mmbs_list.value.register("lastfm".to_owned(), client);
    Registration { handle: client, session, replaced }
}

/// The decode that a change of the album art orders.
pub fn album_art_changed(event: &ImageEvent) -> (order: DecodeRequest)
    ensures
        order.bytes@ == event.0@,
        order.image_type == ImageType::CurrentAlbumArt,
        order.layout == ImageLayout::BGR,
        order.thumbnail,
{
    DecodeRequest {
        bytes: copy_bytes(&*event.0),
        image_type: ImageType::CurrentAlbumArt,
        layout: ImageLayout::BGR,
        thumbnail: true,
    }
}

impl PlaybackInfo {
    pub open spec fn wf(&self) -> bool {
        &&& self.position.wf()
        &&& self.duration.wf()
        &&& self.playback_state.wf()
        &&& self.current_track.wf()
        &&& self.shuffling.wf()
    }
}

impl Models {
    /// Every cell is well formed.
    pub open spec fn wf(&self) -> bool {
        &&& self.metadata.wf()
        &&& self.albumart.wf()
        &&& self.queue.wf()
        &&& self.image_transfer_model.wf()
        &&& self.scan_state.wf()
        &&& self.mmbs.wf()
        &&& self.lastfm.wf()
    }

    /// The account's service is registered exactly while the account is
    /// connected.
    pub open spec fn account_consistent(&self) -> bool {
        self.mmbs.value.entries().dom().contains(lastfm_name()) <==> self.lastfm.value
            is Connected
    }

    /// The session cell received a confirmed session: the account's service
    /// is registered anew under the handle `client`, for the session's key;
    /// the state becomes `Connected(session)`; and the answer asks for one
    /// write of the session and gives the round of the session cell.
    /// Nothing else changes.
    pub fn session_confirmed(&mut self, session: Session, client: u64) -> (asked: SessionRound)
        ensures
            final(self).lastfm.value == LastFMState::Connected(session),
            final(self).lastfm.subscriptions == old(self).lastfm.subscriptions,
            final(self).mmbs.value.entries() == with_lastfm(
                old(self).mmbs.value.entries(),
                client,
            ),
            final(self).lastfm.value is Connected ==> final(self).mmbs.value.entries().dom().contains(
                lastfm_name(),
            ),
            final(self).mmbs.subscriptions == old(self).mmbs.subscriptions,
            asked.persist == session,
            asked.service == (Registration {
                handle: client,
                session: session.key,
                replaced: lastfm_handle(old(self).mmbs.value.entries()),
            }),
            asked.notify@ == old(self).lastfm.subscribers(),
            final(self).account_consistent(),
            final(self).metadata == old(self).metadata,
            final(self).albumart == old(self).albumart,
            final(self).queue == old(self).queue,
            final(self).image_transfer_model == old(self).image_transfer_model,
            final(self).scan_state == old(self).scan_state,
    {
        let asked = self.lastfm.value.connect(session);
        let service = create_last_fm_mmbs(&mut self.mmbs, asked.register, client);
        SessionRound { persist: asked.persist, service, notify: self.lastfm.notify() }
    }

    /// The account signs out: a connected state becomes `Disconnected` and
    /// the account's service leaves the dispatcher; the answer is the handle
    /// that left and the round of the session cell. In any other state nothing changes and nothing
    /// is notified.
    pub fn signed_out(&mut self) -> (done: Option<SignedOut>)
        ensures
            old(self).lastfm.value is Connected ==> {
                &&& final(self).lastfm.value == LastFMState::Disconnected
                &&& final(self).mmbs.value.entries() == old(self).mmbs.value.entries().remove(
                    lastfm_name(),
                )
                &&& done matches Some(out) && out.notify@ == old(self).lastfm.subscribers()
                    && out.released == lastfm_handle(old(self).mmbs.value.entries())
            },
            !(old(self).lastfm.value is Connected) ==> {
                &&& final(self).lastfm.value == old(self).lastfm.value
                &&& final(self).mmbs.value.entries() == old(self).mmbs.value.entries()
                &&& done.is_none()
            },
            old(self).account_consistent() ==> final(self).account_consistent(),
            final(self).lastfm.subscriptions == old(self).lastfm.subscriptions,
            final(self).mmbs.subscriptions == old(self).mmbs.subscriptions,
            final(self).metadata == old(self).metadata,
            final(self).albumart == old(self).albumart,
            final(self).queue == old(self).queue,
            final(self).image_transfer_model == old(self).image_transfer_model,
            final(self).scan_state == old(self).scan_state,
    {
        let ended = self.lastfm.value.sign_out();
        if ended.is_some() {
            let released = self.mmbs.value.unregister("lastfm");
            Some(SignedOut { released, notify: self.lastfm.notify() })
        } else {
            None
        }
    }

    /// The work that `event` owes: one invocation for every service
    /// registered at this moment, each with the call that belongs to the
    /// event. The caller starts each as a task of its own and waits for
    /// none.
    pub fn broadcast(&self, event: &MMBSEvent) -> (plan: Vec<Invocation>)
        ensures
            is_snapshot(self.mmbs.value.entries(), services_of(plan@)),
            plan@.len() == self.mmbs.value.entries().dom().len(),
            forall|i: int| 0 <= i < plan@.len() ==> (#[trigger] plan@[i]).call == call_of(*event),
    {
        self.mmbs.value.dispatch(event)
    }

    /// Puts `item` at the end of the queue and gives the round of the queue
    /// cell, with the new length.
    pub fn enqueue(&mut self, item: QueueItem) -> (told: QueueRound)
        ensures
            final(self).queue.value@ == old(self).queue.value@.push(item),
            final(self).queue.subscriptions == old(self).queue.subscriptions,
            told.length == old(self).queue.value@.len() + 1,
            told.notify@ == old(self).queue.subscribers(),
            final(self).metadata == old(self).metadata,
            final(self).albumart == old(self).albumart,
            final(self).image_transfer_model == old(self).image_transfer_model,
            final(self).scan_state == old(self).scan_state,
            final(self).mmbs == old(self).mmbs,
            final(self).lastfm == old(self).lastfm,
    {
        let length = self.queue.value.append(item);
        QueueRound { length, notify: self.queue.notify() }
    }

    /// Takes the item at `index` out of the queue and gives the round of
    /// the queue cell, with the new length. Without an item at `index`
    /// nothing changes and nothing is notified.
    pub fn dequeue(&mut self, index: usize) -> (told: Option<(QueueItem, QueueRound)>)
        ensures
            index < old(self).queue.value@.len() ==> {
                &&& final(self).queue.value@ == old(self).queue.value@.remove(index as int)
                &&& told matches Some((item, round)) && item == old(self).queue.value@[index as int]
                    && round.length == old(self).queue.value@.len() - 1 && round.notify@ == old(
                    self,
                ).queue.subscribers()
            },
            index >= old(self).queue.value@.len() ==> {
                &&& final(self).queue.value@ == old(self).queue.value@
                &&& told.is_none()
            },
            final(self).queue.subscriptions == old(self).queue.subscriptions,
            final(self).metadata == old(self).metadata,
            final(self).albumart == old(self).albumart,
            final(self).image_transfer_model == old(self).image_transfer_model,
            final(self).scan_state == old(self).scan_state,
            final(self).mmbs == old(self).mmbs,
            final(self).lastfm == old(self).lastfm,
    {
        match self.queue.value.remove(index) {
            Some(item) => {
                let length = self.queue.value.len();
                Some((item, QueueRound { length, notify: self.queue.notify() }))
            },
            None => None,
        }
    }

    /// Empties the queue and gives the round of the queue cell, with the
    /// new length, which is 0.
    pub fn clear_queue(&mut self) -> (told: QueueRound)
        ensures
            final(self).queue.value@ == Seq::<QueueItem>::empty(),
            final(self).queue.subscriptions == old(self).queue.subscriptions,
            told.length == 0,
            told.notify@ == old(self).queue.subscribers(),
            final(self).metadata == old(self).metadata,
            final(self).albumart == old(self).albumart,
            final(self).image_transfer_model == old(self).image_transfer_model,
            final(self).scan_state == old(self).scan_state,
            final(self).mmbs == old(self).mmbs,
            final(self).lastfm == old(self).lastfm,
    {
        self.queue.value.clear();
        QueueRound { length: 0, notify: self.queue.notify() }
    }
}

/// Builds every cell once and ties them together.
///
/// The session cell starts from what was kept: connected with a stored
/// session, disconnected otherwise, with a diagnostic where the file cannot
/// be read. With a stored session the account's service is registered at
/// once under the handle `client`, for the session's key; without one
/// `client` is not used. The album-art, session and service cells get one
/// subscription each, the first of each cell; no other cell has one, the
/// playback cells included.
pub fn build_models(queue: Queue, file: SessionFile, client: u64) -> (built: Built)
    ensures
        built.models.wf(),
        built.playback.wf(),
        built.models.metadata.value == (Metadata { name: None, artist: None, album: None }),
        built.models.albumart.value.is_none(),
        built.models.queue.value == queue,
        built.models.scan_state.value == ScanEvent::ScanCompleteIdle,
        built.models.lastfm.value == restored_from(file).state,
        built.diagnostic == restored_from(file).diagnostic,
        built.models.mmbs.value.entries() == initial_services(file, client),
        built.service == initial_registration(file, client),
        built.models.lastfm.value is Connected ==> built.models.mmbs.value.entries().dom().contains(
            lastfm_name(),
        ),
        built.models.account_consistent(),
        built.wiring == (Wiring { album_art: 0, session: 0, broadcast: 0 }),
        built.models.albumart.issued() == 1,
        built.models.lastfm.issued() == 1,
        built.models.mmbs.issued() == 1,
        built.models.metadata.issued() == 0,
        built.models.queue.issued() == 0,
        built.models.image_transfer_model.issued() == 0,
        built.models.scan_state.issued() == 0,
        built.playback.position.issued() == 0,
        built.playback.duration.issued() == 0,
        built.playback.playback_state.issued() == 0,
        built.playback.current_track.issued() == 0,
        built.playback.shuffling.issued() == 0,
        built.models.albumart.subscribers() == seq![built.wiring.album_art],
        built.models.lastfm.subscribers() == seq![built.wiring.session],
        built.models.mmbs.subscribers() == seq![built.wiring.broadcast],
        built.models.metadata.subscribers().len() == 0,
        built.models.queue.subscribers().len() == 0,
        built.models.image_transfer_model.subscribers().len() == 0,
        built.models.scan_state.subscribers().len() == 0,
        built.playback.position.subscribers().len() == 0,
        built.playback.duration.subscribers().len() == 0,
        built.playback.playback_state.subscribers().len() == 0,
        built.playback.current_track.subscribers().len() == 0,
        built.playback.shuffling.subscribers().len() == 0,
        built.playback.position.value == 0,
        built.playback.duration.value == 0,
        built.playback.playback_state.value == PlaybackState::Stopped,
        built.playback.current_track.value.is_none(),
        built.playback.shuffling.value == false,
{
    let metadata = ReactiveContainer::new(Metadata::empty());
    let mut albumart: ReactiveContainer<Option<Vec<u8>>> = ReactiveContainer::new(None);
    let queue = ReactiveContainer::new(queue);
    let image_transfer_model = ReactiveContainer::new(TransferDummy);
    let scan_state = ReactiveContainer::new(ScanEvent::ScanCompleteIdle);
    let mut mmbs = ReactiveContainer::new(MMBSList::new());
    let start = restore(file);
    let service = match &start.state {
        LastFMState::Connected(session) => Some(
            create_last_fm_mmbs(&mut mmbs, session.key.clone(), client),
        ),
        _ => None,
    };
    let mut lastfm = ReactiveContainer::new(start.state);

    let album_art = albumart.subscribe();
    let session = lastfm.subscribe();
    let broadcast = mmbs.subscribe();
    proof {
        assert(albumart.subscribers() =~= seq![album_art]);
        assert(lastfm.subscribers() =~= seq![session]);
        assert(mmbs.subscribers() =~= seq![broadcast]);
    }

    let current_track: ReactiveContainer<Option<String>> = ReactiveContainer::new(None);
    let playback = PlaybackInfo {
        position: ReactiveContainer::new(0u64),
        duration: ReactiveContainer::new(0u64),
        playback_state: ReactiveContainer::new(PlaybackState::Stopped),
        current_track,
        shuffling: ReactiveContainer::new(false),
    };
    Built {
        models: Models {
            metadata,
            albumart,
            queue,
            image_transfer_model,
            scan_state,
            mmbs,
            lastfm,
        },
        playback,
        wiring: Wiring { album_art, session, broadcast },
        service,
        diagnostic: start.diagnostic,
    }
}

} // verus!
