//! The channel through which the configuration reaches the jobs: it holds
//! the current snapshot and nothing else. A new snapshot replaces the old
//! one whole, and a reader sees the latest, however many it missed.

use vstd::prelude::*;

verus! {

/// The channel as its contracts see it.
pub struct ChannelState<T> {
    /// The snapshot that readers get.
    pub current: T,
    /// The number of snapshots published after the initial one.
    pub version: nat,
}

impl<T> ChannelState<T> {
    /// The channel after `snapshot` was published.
    pub open spec fn publish(self, snapshot: T) -> ChannelState<T> {
        ChannelState { current: snapshot, version: self.version + 1 }
    }

    /// The channel after each of `snapshots` was published in turn.
    pub open spec fn publish_all(self, snapshots: Seq<T>) -> ChannelState<T>
        decreases snapshots.len(),
    {
        if snapshots.len() == 0 {
            self
        } else {
            self.publish_all(snapshots.drop_last()).publish(snapshots.last())
        }
    }

    /// Whether the channel holds a snapshot newer than the one of version
    /// `seen`.
    pub open spec fn newer_than(self, seen: nat) -> bool {
        self.version > seen
    }

    /// A publish is news to every reader of the channel, whatever it has
    /// seen; and a reader that has seen the current snapshot has no news
    /// until the next publish.
    pub proof fn lemma_publish_is_news_to_all(self, snapshot: T, seen: nat)
        requires
            seen <= self.version,
        ensures
            self.publish(snapshot).newer_than(seen),
            !self.newer_than(self.version),
    {
    }

    /// After any sequence of publishes the channel holds exactly the last
    /// snapshot of the sequence, and its version has advanced by the length
    /// of the sequence: a reader that looks now gets that snapshot, whatever
    /// it saw before.
    pub proof fn lemma_last_publish_wins(self, snapshots: Seq<T>)
        requires
            snapshots.len() > 0,
        ensures
            self.publish_all(snapshots).current == snapshots.last(),
            self.publish_all(snapshots).version == self.version + snapshots.len(),
        decreases snapshots.len(),
    {
        let earlier = snapshots.drop_last();
        if earlier.len() > 0 {
            self.lemma_last_publish_wins(earlier);
        } else {
            assert(self.publish_all(earlier) == self);
        }
    }
}

/// The writer's side of the channel. There is one writer; it owns the
/// channel, and readers come to it with their own [`ConfigReader`].
pub struct ConfigChannel<T> {
    current: T,
    version: u64,
}

impl<T> View for ConfigChannel<T> {
    type V = ChannelState<T>;

    closed spec fn view(&self) -> ChannelState<T> {
        ChannelState { current: self.current, version: self.version as nat }
    }
}

impl<T> ConfigChannel<T> {
    /// A channel that holds `initial`.
    pub fn new(initial: T) -> (channel: ConfigChannel<T>)
        ensures
            channel@ == (ChannelState { current: initial, version: 0 }),
    {
        ConfigChannel { current: initial, version: 0 }
    }

    /// Replaces the current snapshot. The versions are counted in a `u64`,
    /// which bounds the number of publishes.
    pub fn publish(&mut self, snapshot: T)
        requires
            old(self)@.version < u64::MAX,
        ensures
            final(self)@ == old(self)@.publish(snapshot),
    {
        self.current = snapshot;
        self.version = self.version + 1;
    }

    /// The latest snapshot.
    pub fn current(&self) -> (snapshot: &T)
        ensures
            *snapshot == self@.current,
    {
        &self.current
    }

    /// The number of snapshots published after the initial one.
    pub fn version(&self) -> (version: u64)
        ensures
            version == self@.version,
    {
        self.version
    }

    /// A reader that has seen the current snapshot.
    pub fn subscribe(&self) -> (reader: ConfigReader)
        ensures
            reader.seen() == self@.version,
    {
        ConfigReader { seen: self.version }
    }
}

/// One reader's place in the sequence of snapshots. Readers are independent
/// of each other: what one has seen changes nothing for another.
#[derive(Clone, Copy, Debug)]
pub struct ConfigReader {
    seen: u64,
}

impl ConfigReader {
    /// The version of the snapshot that the reader observed last.
    pub closed spec fn seen(&self) -> nat {
        self.seen as nat
    }

    /// Whether the channel holds a snapshot newer than the one observed last.
    pub fn has_changed<T>(&self, channel: &ConfigChannel<T>) -> (changed: bool)
        ensures
            changed == channel@.newer_than(self.seen()),
    {
        channel.version > self.seen
    }

    /// The latest snapshot, which counts as observed from now on.
    pub fn observe<'a, T>(&mut self, channel: &'a ConfigChannel<T>) -> (snapshot: &'a T)
        ensures
            *snapshot == channel@.current,
            final(self).seen() == channel@.version,
    {
        self.seen = channel.version;
        &channel.current
    }

    /// The latest snapshot if it is newer than the one observed last, which
    /// it then replaces as the one observed. `None` tells the reader to wait:
    /// nothing has been published since.
    pub fn changed<'a, T>(&mut self, channel: &'a ConfigChannel<T>) -> (snapshot: Option<&'a T>)
        ensures
            snapshot is Some <==> channel@.newer_than(old(self).seen()),
            snapshot matches Some(latest) ==> *latest == channel@.current && final(self).seen()
                == channel@.version,
            snapshot is None ==> final(self).seen() == old(self).seen(),
    {
        if channel.version > self.seen {
            self.seen = channel.version;
            Some(&channel.current)
        } else {
            None
        }
    }
}

} // verus!
