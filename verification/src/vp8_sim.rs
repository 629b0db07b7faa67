//! VP8 simulcast filter: picks one spatial/temporal layer of a simulcast
//! VP8 stream, switches layers at safe points and has the PictureId and
//! TL0PICIDX of forwarded packets rewritten so that the receiver sees one
//! continuous stream.
//!
//! The two sequence rewriters (one for PictureId, one for TL0PICIDX) are
//! driven by the caller: the filter is a state machine that answers each
//! event with the action to perform, and the caller reports the outcome of
//! that action as the next event, until the action is `Done` or
//! `ReleaseAndDrop`.

use vstd::prelude::*;

verus! {

/// What a scalable filter decides for a packet.
#[derive(Debug, Clone, Copy, PartialEq, Eq, Structural)]
pub enum FilterResult {
    /// Forward the packet.
    Send,
    /// The packet belongs to the selected stream but is not forwarded.
    Drop,
    /// The packet does not belong to the selected stream.
    Reject,
}

/// VP8 simulcast descriptor of a packet.
#[derive(Debug, Clone, Copy, PartialEq, Eq, Structural)]
pub struct Vp8Simulcast {
    pub picture_id: Option<u16>,
    pub tl0_pic_idx: Option<u8>,
    pub spatial: u8,
    pub temporal: u8,
    pub layer_sync: bool,
}

impl Vp8Simulcast {
    /// A descriptor for the given layers, without PictureId or TL0PICIDX.
    pub fn new(spatial: u8, temporal: u8, layer_sync: bool) -> (sim: Self)
        ensures
            sim == (Vp8Simulcast {
                picture_id: None,
                tl0_pic_idx: None,
                spatial,
                temporal,
                layer_sync,
            }),
    {
        Vp8Simulcast { picture_id: None, tl0_pic_idx: None, spatial, temporal, layer_sync }
    }
}

/// Payload codec of a media packet, as far as the filter reads it.
#[derive(Debug, Clone, Copy, PartialEq, Eq, Structural)]
pub enum PayloadCodec {
    /// VP8: whether the packet belongs to a key frame, and its simulcast
    /// descriptor if it has one.
    Vp8(bool, Option<Vp8Simulcast>),
    /// Any other codec.
    Other,
}

/// The part of a media packet that the filter reads and rewrites.
#[derive(Debug, Clone, Copy, PartialEq, Eq, Structural)]
pub struct MediaPacket {
    pub codec: PayloadCodec,
}

/// What the caller reports to the filter.
#[derive(Debug, Clone, Copy, PartialEq, Eq, Structural)]
pub enum FilterEvent {
    /// A new packet arrived.
    Start,
    /// Both rewriters were reinitialised, as `ResetRewriters` asked.
    RewritersReset,
    /// The TL0PICIDX rewriter's `generate` returned this.
    Tl0PicIdxRewritten(Option<u64>),
    /// The PictureId rewriter's `generate` returned this.
    PictureIdRewritten(Option<u64>),
}

/// What the filter asks the caller to do next.
#[derive(Debug, Clone, Copy, PartialEq, Eq, Structural)]
pub enum FilterAction {
    /// Reinitialise both rewriters, then report `RewritersReset`.
    ResetRewriters,
    /// Hand this value to the TL0PICIDX rewriter's `generate` and report
    /// the result with `Tl0PicIdxRewritten`.
    RewriteTl0PicIdx(u64),
    /// Hand this value to the PictureId rewriter's `generate` and report the
    /// result with `PictureIdRewritten`.
    RewritePictureId(u64),
    /// Hand the present values to `drop_value` of their rewriters, first the
    /// PictureId, then the TL0PICIDX; the packet is dropped.
    ReleaseAndDrop { picture_id: Option<u64>, tl0_pic_idx: Option<u64> },
    /// The packet's fate is decided.
    Done(FilterResult),
}

/// A selected layer: spatial layer, highest temporal layer, and whether only
/// key frames pass.
#[derive(Debug, Clone, Copy, PartialEq, Eq, Structural)]
pub struct Selection {
    pub spatial: u8,
    pub temporal: u8,
    pub key_only: bool,
}

/// Whether a VP8 packet of the given key-frame flag and descriptor belongs
/// to the selected layers.
pub open spec fn selected(sel: Selection, is_key: bool, sim: Vp8Simulcast) -> bool {
    sim.temporal <= sel.temporal && (is_key || !sel.key_only)
}

/// An id widened to the rewriters' domain.
pub open spec fn widen_picture_id(id: Option<u16>) -> Option<u64> {
    match id {
        Some(v) => Some(v as u64),
        None => None,
    }
}

/// An id widened to the rewriters' domain.
pub open spec fn widen_tl0_pic_idx(idx: Option<u8>) -> Option<u64> {
    match idx {
        Some(v) => Some(v as u64),
        None => None,
    }
}

/// The packet with a new VP8 descriptor.
pub open spec fn with_simulcast(is_key: bool, sim: Vp8Simulcast) -> MediaPacket {
    MediaPacket { codec: PayloadCodec::Vp8(is_key, Some(sim)) }
}

/// Step after the TL0PICIDX is settled: rewrite the PictureId if there is
/// one, else the packet goes out.
pub open spec fn picture_id_step(is_key: bool, sim: Vp8Simulcast) -> (MediaPacket, FilterAction) {
    match sim.picture_id {
        Some(p) => (with_simulcast(is_key, sim), FilterAction::RewritePictureId(p as u64)),
        None => (with_simulcast(is_key, sim), FilterAction::Done(FilterResult::Send)),
    }
}

/// One step of a selection on a packet: the packet as it stands afterwards
/// and the action asked of the caller.
pub open spec fn allow_step(sel: Selection, pkt: MediaPacket, event: FilterEvent) -> (
    MediaPacket,
    FilterAction,
) {
    match pkt.codec {
        PayloadCodec::Vp8(is_key, Some(sim)) => {
            if sim.spatial != sel.spatial {
                (pkt, FilterAction::Done(FilterResult::Reject))
            } else if !selected(sel, is_key, sim) {
                (
                    pkt,
                    FilterAction::ReleaseAndDrop {
                        picture_id: widen_picture_id(sim.picture_id),
                        tl0_pic_idx: widen_tl0_pic_idx(sim.tl0_pic_idx),
                    },
                )
            } else {
                match event {
                    FilterEvent::Tl0PicIdxRewritten(Some(v)) => picture_id_step(
                        is_key,
                        Vp8Simulcast { tl0_pic_idx: Some(v as u8), ..sim },
                    ),
                    FilterEvent::Tl0PicIdxRewritten(None) => (
                        pkt,
                        FilterAction::Done(FilterResult::Drop),
                    ),
                    FilterEvent::PictureIdRewritten(Some(v)) => (
                        with_simulcast(is_key, Vp8Simulcast { picture_id: Some(v as u16), ..sim }),
                        FilterAction::Done(FilterResult::Send),
                    ),
                    FilterEvent::PictureIdRewritten(None) => (
                        pkt,
                        FilterAction::Done(FilterResult::Drop),
                    ),
                    _ => match sim.tl0_pic_idx {
                        Some(t) => (pkt, FilterAction::RewriteTl0PicIdx(t as u64)),
                        None => picture_id_step(is_key, sim),
                    },
                }
            }
        },
        _ => (pkt, FilterAction::Done(FilterResult::Reject)),
    }
}

/// Whether a target selection should replace the current one at this
/// packet.
pub open spec fn switch_now(target: Selection, current: Option<Selection>, pkt: MediaPacket) -> bool {
    match pkt.codec {
        PayloadCodec::Vp8(is_key, Some(sim)) => match current {
            None => sim.spatial == target.spatial && sim.temporal <= target.temporal && is_key,
            Some(cur) => if cur.spatial == target.spatial {
                if target.temporal > cur.temporal {
                    // up-switch: wait for a layer-sync packet of the new layer
                    sim.temporal == target.temporal && sim.layer_sync
                } else {
                    // down-switch: applies at once
                    true
                }
            } else {
                sim.spatial == target.spatial && sim.temporal <= target.temporal && is_key
            },
        },
        _ => false,
    }
}

/// The filter's state: the layer selection in force and the one waiting to
/// take over.
#[derive(Debug, Clone, Copy, PartialEq, Eq, Structural)]
pub struct Vp8SimulcastFilter {
    pub current: Option<Selection>,
    pub target: Option<Selection>,
}

/// One step of the filter: its state afterwards, the packet as it stands
/// afterwards and the action asked of the caller. A target that should
/// switch at a new packet takes over first, and the rewriters are reset
/// before the packet is handled; without a current selection every packet
/// is rejected.
pub open spec fn filter_step(
    filter: Vp8SimulcastFilter,
    pkt: MediaPacket,
    event: FilterEvent,
) -> (Vp8SimulcastFilter, MediaPacket, FilterAction) {
    if event == FilterEvent::Start && filter.target is Some && switch_now(
        filter.target->0,
        filter.current,
        pkt,
    ) {
        (
            Vp8SimulcastFilter { current: filter.target, target: None },
            pkt,
            FilterAction::ResetRewriters,
        )
    } else {
        match filter.current {
            Some(cur) => {
                let (p, a) = allow_step(cur, pkt, event);
                (filter, p, a)
            },
            None => (filter, pkt, FilterAction::Done(FilterResult::Reject)),
        }
    }
}

/// The filter after a new target layer is asked for, and whether a key
/// frame must be requested from the sender: the target is (re)set unless the
/// current selection already has these spatial and temporal layers; a key
/// frame is needed unless the current selection has this spatial layer.
pub open spec fn retarget(filter: Vp8SimulcastFilter, spatial: u8, temporal: u8, key_only: bool) -> (
    Vp8SimulcastFilter,
    bool,
) {
    let (key_frame, changed) = match filter.current {
        Some(cur) => (cur.spatial != spatial, cur.spatial != spatial || cur.temporal != temporal),
        None => (true, true),
    };
    if changed {
        (
            Vp8SimulcastFilter {
                target: Some(Selection { spatial, temporal, key_only }),
                ..filter
            },
            key_frame,
        )
    } else {
        (filter, key_frame)
    }
}

/// The filter with nothing selected.
pub open spec fn paused() -> Vp8SimulcastFilter {
    Vp8SimulcastFilter { current: None, target: None }
}

impl Default for Vp8SimulcastFilter {
    fn default() -> (filter: Self)
        ensures
            filter == paused(),
    {
        Vp8SimulcastFilter { current: None, target: None }
    }
}

impl Vp8SimulcastFilter {
    /// Forget the selected and the target layer, and ask for both rewriters
    /// to be reinitialised.
    pub fn pause(&mut self) -> (action: FilterAction)
        ensures
            *final(self) == paused(),
            action == FilterAction::ResetRewriters,
    {
        self.current = None;
        self.target = None;
        FilterAction::ResetRewriters
    }

    /// Resuming needs nothing: the next target is set with
    /// `set_target_layer`.
    pub fn resume(&mut self)
        ensures
            *final(self) == *old(self),
    {
    }

    /// Ask for a new layer. Returns whether a key frame must be requested.
    pub fn set_target_layer(&mut self, spatial: u8, temporal: u8, key_only: bool) -> (key_frame:
        bool)
        ensures
            (*final(self), key_frame) == retarget(*old(self), spatial, temporal, key_only),
    {
        let (key_frame, changed) = match &self.current {
            Some(current) => (
                current.spatial != spatial,
                current.spatial != spatial || current.temporal != temporal,
            ),
            None => (true, true),
        };
        if changed {
            self.target = Some(Selection::new(spatial, temporal, key_only));
        }
        key_frame
    }

    /// One step of the filter on a packet (see `filter_step`).
    pub fn should_send(&mut self, pkt: &mut MediaPacket, event: FilterEvent) -> (action:
        FilterAction)
        ensures
            (*final(self), *final(pkt), action) == filter_step(*old(self), *old(pkt), event),
    {
        if event == FilterEvent::Start {
            if let Some(target) = &self.target {
                if target.should_switch(&self.current, pkt) {
                    self.current = self.target.take();
                    return FilterAction::ResetRewriters;
                }
            }
        }
        if let Some(current) = &self.current {
            current.allow(pkt, event)
        } else {
            FilterAction::Done(FilterResult::Reject)
        }
    }
}

impl Selection {
    pub fn new(spatial: u8, temporal: u8, key_only: bool) -> (sel: Self)
        ensures
            sel == (Selection { spatial, temporal, key_only }),
    {
        Self { spatial, temporal, key_only }
    }

    /// One step of this selection on a packet: for `Start` (or
    /// `RewritersReset`) the decision on the packet, for the rewriters'
    /// results the rewriting of the packet's ids.
    pub fn allow(&self, pkt: &mut MediaPacket, event: FilterEvent) -> (action: FilterAction)
        ensures
            (*final(pkt), action) == allow_step(*self, *old(pkt), event),
    {
        match pkt.codec {
            PayloadCodec::Vp8(is_key, Some(sim)) => {
                if sim.spatial == self.spatial {
                    if sim.temporal <= self.temporal && (is_key || !self.key_only) {
                        match event {
                            FilterEvent::Tl0PicIdxRewritten(Some(new_tl0idx)) => {
                                let new_sim = Vp8Simulcast {
                                    tl0_pic_idx: Some(#[verifier::truncate] (new_tl0idx as u8)),
                                    ..sim
                                };
                                pkt.codec = PayloadCodec::Vp8(is_key, Some(new_sim));
                                match sim.picture_id {
                                    Some(pic_id) => FilterAction::RewritePictureId(pic_id as u64),
                                    None => FilterAction::Done(FilterResult::Send),
                                }
                            },
                            FilterEvent::Tl0PicIdxRewritten(None) => FilterAction::Done(
                                FilterResult::Drop,
                            ),
                            FilterEvent::PictureIdRewritten(Some(new_pic_id)) => {
                                let new_sim = Vp8Simulcast {
                                    picture_id: Some(#[verifier::truncate] (new_pic_id as u16)),
                                    ..sim
                                };
                                pkt.codec = PayloadCodec::Vp8(is_key, Some(new_sim));
                                FilterAction::Done(FilterResult::Send)
                            },
                            FilterEvent::PictureIdRewritten(None) => FilterAction::Done(
                                FilterResult::Drop,
                            ),
                            _ => {
                                if let Some(tl0idx) = sim.tl0_pic_idx {
                                    FilterAction::RewriteTl0PicIdx(tl0idx as u64)
                                } else if let Some(pic_id) = sim.picture_id {
                                    FilterAction::RewritePictureId(pic_id as u64)
                                } else {
                                    FilterAction::Done(FilterResult::Send)
                                }
                            },
                        }
                    } else {
                        let picture_id: Option<u64> = match sim.picture_id {
                            Some(pic_id) => Some(pic_id as u64),
                            None => None,
                        };
                        let tl0_pic_idx: Option<u64> = match sim.tl0_pic_idx {
                            Some(tl0idx) => Some(tl0idx as u64),
                            None => None,
                        };
                        FilterAction::ReleaseAndDrop { picture_id, tl0_pic_idx }
                    }
                } else {
                    FilterAction::Done(FilterResult::Reject)
                }
            },
            _ => FilterAction::Done(FilterResult::Reject),
        }
    }

    /// Whether this selection, as the target, should replace `current` at
    /// this packet.
    pub fn should_switch(&self, current: &Option<Self>, pkt: &MediaPacket) -> (switch: bool)
        ensures
            switch == switch_now(*self, *current, *pkt),
    {
        match (current, &pkt.codec) {
            (None, PayloadCodec::Vp8(is_key, Some(sim))) => sim.spatial == self.spatial
                && sim.temporal <= self.temporal && *is_key,
            (Some(current), PayloadCodec::Vp8(is_key, Some(sim))) => {
                if current.spatial == self.spatial {
                    if self.temporal > current.temporal {
                        sim.temporal == self.temporal && sim.layer_sync
                    } else {
                        true
                    }
                } else {
                    sim.spatial == self.spatial && sim.temporal <= self.temporal && *is_key
                }
            },
            _ => false,
        }
    }
}

/// Whether a packet is VP8 with a simulcast descriptor of the given
/// spatial layer.
pub open spec fn in_spatial_layer(pkt: MediaPacket, spatial: u8) -> bool {
    pkt.codec matches PayloadCodec::Vp8(_, Some(sim)) && sim.spatial == spatial
}

/// A paused filter rejects every packet and stays as it is.
pub proof fn law_paused_filter_rejects(pkt: MediaPacket, event: FilterEvent)
    ensures
        filter_step(paused(), pkt, event) == (paused(), pkt, FilterAction::Done(
            FilterResult::Reject,
        )),
{
}

/// A selection rejects a packet, at its first step, exactly when the packet
/// is not a VP8 simulcast packet of the selected spatial layer; a rejected
/// packet is left as it is.
pub proof fn law_reject_iff_other_stream(sel: Selection, pkt: MediaPacket)
    ensures
        (allow_step(sel, pkt, FilterEvent::Start).1 == FilterAction::Done(FilterResult::Reject))
            <==> !in_spatial_layer(pkt, sel.spatial),
        !in_spatial_layer(pkt, sel.spatial) ==> allow_step(sel, pkt, FilterEvent::Start).0 == pkt,
{
}

/// Packets of the selected spatial layer above the selected temporal layer,
/// or delta frames under a key-frame-only selection, are dropped and their
/// ids handed back to the rewriters.
pub proof fn law_unselected_layer_released(sel: Selection, is_key: bool, sim: Vp8Simulcast, event: FilterEvent)
    requires
        sim.spatial == sel.spatial,
        !selected(sel, is_key, sim),
    ensures
        allow_step(sel, with_simulcast(is_key, sim), event) == (
            with_simulcast(is_key, sim),
            FilterAction::ReleaseAndDrop {
                picture_id: widen_picture_id(sim.picture_id),
                tl0_pic_idx: widen_tl0_pic_idx(sim.tl0_pic_idx),
            },
        ),
{
}

/// A forwarded packet with both ids asks for the TL0PICIDX, then the
/// PictureId to be rewritten, and leaves with exactly the rewriters' values
/// in place of its own; if either rewriter refuses, the packet is dropped
/// as it stands.
pub proof fn law_forwarded_ids_rewritten(
    sel: Selection,
    is_key: bool,
    sim: Vp8Simulcast,
    new_tl0: u64,
    new_pic: u64,
)
    requires
        sim.spatial == sel.spatial,
        selected(sel, is_key, sim),
        sim.tl0_pic_idx is Some,
        sim.picture_id is Some,
    ensures
        ({
            let pkt = with_simulcast(is_key, sim);
            let mid = with_simulcast(is_key, Vp8Simulcast { tl0_pic_idx: Some(new_tl0 as u8), ..sim });
            let out = with_simulcast(
                is_key,
                Vp8Simulcast {
                    tl0_pic_idx: Some(new_tl0 as u8),
                    picture_id: Some(new_pic as u16),
                    ..sim
                },
            );
            &&& allow_step(sel, pkt, FilterEvent::Start) == (pkt, FilterAction::RewriteTl0PicIdx(
                sim.tl0_pic_idx->0 as u64,
            ))
            &&& allow_step(sel, pkt, FilterEvent::Tl0PicIdxRewritten(Some(new_tl0))) == (
                mid,
                FilterAction::RewritePictureId(sim.picture_id->0 as u64),
            )
            &&& allow_step(sel, mid, FilterEvent::PictureIdRewritten(Some(new_pic))) == (
                out,
                FilterAction::Done(FilterResult::Send),
            )
            &&& allow_step(sel, pkt, FilterEvent::Tl0PicIdxRewritten(None)) == (
                pkt,
                FilterAction::Done(FilterResult::Drop),
            )
            &&& allow_step(sel, mid, FilterEvent::PictureIdRewritten(None)) == (
                mid,
                FilterAction::Done(FilterResult::Drop),
            )
        }),
{
}

/// When the target should take over at a new packet, the filter adopts it,
/// clears the target and asks for the rewriters to be reset; once they are,
/// the packet is handled by the new selection.
pub proof fn law_switch_adopts_target(filter: Vp8SimulcastFilter, target: Selection, pkt: MediaPacket, event: FilterEvent)
    requires
        filter.target == Some(target),
        switch_now(target, filter.current, pkt),
        event != FilterEvent::Start,
    ensures
        ({
            let switched = Vp8SimulcastFilter { current: Some(target), target: None };
            &&& filter_step(filter, pkt, FilterEvent::Start) == (
                switched,
                pkt,
                FilterAction::ResetRewriters,
            )
            &&& filter_step(switched, pkt, event) == (
                switched,
                allow_step(target, pkt, event).0,
                allow_step(target, pkt, event).1,
            )
        }),
{
}

/// Asking again for the layers already in force changes nothing and needs no
/// key frame; asking for another spatial layer, or for any layer while
/// nothing is selected, sets the target and needs a key frame.
pub proof fn law_retarget(filter: Vp8SimulcastFilter, spatial: u8, temporal: u8, key_only: bool)
    ensures
        (filter.current matches Some(cur) && cur.spatial == spatial && cur.temporal == temporal)
            ==> retarget(filter, spatial, temporal, key_only) == (filter, false),
        (filter.current is None || filter.current->0.spatial != spatial) ==> retarget(
            filter,
            spatial,
            temporal,
            key_only,
        ) == (
            Vp8SimulcastFilter {
                target: Some(Selection { spatial, temporal, key_only }),
                ..filter
            },
            true,
        ),
{
}

/// Unless a pending target takes over at a new packet, the filter leaves its
/// selections as they are and the packet is handled by the current selection
/// alone (or rejected when nothing is selected): a pending target does not
/// hold back the layer in force.
pub proof fn law_no_switch_current_handles(filter: Vp8SimulcastFilter, pkt: MediaPacket, event: FilterEvent)
    requires
        !(event == FilterEvent::Start && filter.target is Some && switch_now(
            filter.target->0,
            filter.current,
            pkt,
        )),
    ensures
        filter.current matches Some(cur) ==> filter_step(filter, pkt, event) == (
            filter,
            allow_step(cur, pkt, event).0,
            allow_step(cur, pkt, event).1,
        ),
        filter.current is None ==> filter_step(filter, pkt, event) == (
            filter,
            pkt,
            FilterAction::Done(FilterResult::Reject),
        ),
{
}

/// With nothing selected, a target takes over exactly at a key frame of its
/// spatial layer at or below its temporal layer.
pub proof fn law_first_switch_at_key_frame(target: Selection, pkt: MediaPacket)
    ensures
        switch_now(target, None, pkt) <==> (pkt.codec matches PayloadCodec::Vp8(true, Some(sim))
            && sim.spatial == target.spatial && sim.temporal <= target.temporal),
{
}

/// A target of another spatial layer than the current selection takes over
/// exactly at a key frame of the target's spatial layer at or below its
/// temporal layer.
pub proof fn law_spatial_switch_at_key_frame(target: Selection, cur: Selection, pkt: MediaPacket)
    requires
        cur.spatial != target.spatial,
    ensures
        switch_now(target, Some(cur), pkt) <==> (pkt.codec matches PayloadCodec::Vp8(true, Some(sim))
            && sim.spatial == target.spatial && sim.temporal <= target.temporal),
{
}

/// Within the current spatial layer, moving up in temporal layers waits for a
/// layer-sync packet of the target temporal layer, while moving down (or
/// staying) happens at the next VP8 simulcast packet.
pub proof fn law_temporal_switch_points(target: Selection, cur: Selection, pkt: MediaPacket)
    requires
        cur.spatial == target.spatial,
    ensures
        target.temporal > cur.temporal ==> (switch_now(target, Some(cur), pkt) <==> (
        pkt.codec matches PayloadCodec::Vp8(_, Some(sim)) && sim.temporal == target.temporal
            && sim.layer_sync)),
        target.temporal <= cur.temporal ==> (switch_now(target, Some(cur), pkt) <==> (
        pkt.codec matches PayloadCodec::Vp8(_, Some(_)))),
{
}

/// Every selected packet of the selection's spatial layer, whatever its
/// TL0PICIDX, leaves with exactly the PictureId the rewriter handed back and
/// its other fields kept.
pub proof fn law_picture_id_rewritten(sel: Selection, is_key: bool, sim: Vp8Simulcast, v: u64)
    requires
        sim.spatial == sel.spatial,
        selected(sel, is_key, sim),
    ensures
        allow_step(sel, with_simulcast(is_key, sim), FilterEvent::PictureIdRewritten(Some(v))) == (
            with_simulcast(is_key, Vp8Simulcast { picture_id: Some(v as u16), ..sim }),
            FilterAction::Done(FilterResult::Send),
        ),
{
}

/// Asking for another temporal layer of the current spatial layer sets the
/// target to the requested selection and needs no key frame.
pub proof fn law_retarget_temporal(filter: Vp8SimulcastFilter, spatial: u8, temporal: u8, key_only: bool)
    requires
        filter.current matches Some(cur) && cur.spatial == spatial && cur.temporal != temporal,
    ensures
        retarget(filter, spatial, temporal, key_only) == (
            Vp8SimulcastFilter {
                target: Some(Selection { spatial, temporal, key_only }),
                ..filter
            },
            false,
        ),
{
}

} // verus!
