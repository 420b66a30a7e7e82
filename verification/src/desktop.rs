//! The lists that the desktop front end keeps from frame to frame: the files
//! on offer and the downloads under way.

use vstd::prelude::*;

verus! {

/// A file on offer.
#[derive(Debug, PartialEq, Eq)]
pub struct Shared {
    pub path: String,
    pub size: u64,
    /// Whether the user has taken the file back.
    pub cancel: bool,
}

/// A [`Shared`] as contracts see it.
pub struct SharedView {
    pub path: Seq<char>,
    pub size: u64,
    pub cancel: bool,
}

impl View for Shared {
    type V = SharedView;

    open spec fn view(&self) -> SharedView {
        SharedView { path: self.path@, size: self.size, cancel: self.cancel }
    }
}

impl Shared {
    /// Takes note of a frame in which the file was shown: a click on its
    /// button takes the file back, and nothing brings it back.
    pub fn show(&mut self, remove_clicked: bool)
        ensures
            final(self)@ == (SharedView { cancel: old(self).cancel || remove_clicked, ..old(self)@ }),
    {
        if remove_clicked {
            self.cancel = true;
        }
    }
}

/// A download, as the thread that runs it sees it.
#[derive(Clone, Copy, Debug, PartialEq, Eq, Structural)]
pub struct Downloader {
    /// Set when the download is to end.
    pub stop: bool,
}

/// A download, as the front end holds it.
#[derive(Clone, Copy, Debug, PartialEq, Eq, Structural)]
pub struct DownloaderHandle(pub Downloader);

impl Downloader {
    /// A download that has not been told to end.
    pub fn new() -> (handle: DownloaderHandle)
        ensures
            !handle.0.stop,
    {
        DownloaderHandle(Downloader { stop: false })
    }
}

impl DownloaderHandle {
    /// Whether the download has been told to end.
    pub fn cancelled(&self) -> (cancelled: bool)
        ensures
            cancelled == self.0.stop,
    {
        self.0.stop
    }

    /// Tells the download to end.
    pub fn cancel(&mut self)
        ensures
            final(self).0.stop,
    {
        self.0.stop = true;
    }
}

/// What the window system and the disk tell of something dropped on the
/// window.
#[derive(Debug, PartialEq, Eq)]
pub struct DroppedFile {
    /// Where it lies, if the window system knows.
    pub path: Option<String>,
    /// Whether a regular file lies there.
    pub is_file: bool,
    /// The size of that file in bytes.
    pub size: u64,
}

/// What became of something dropped on the window.
#[derive(Clone, Copy, Debug, PartialEq, Eq, Structural)]
pub enum DropOutcome {
    /// It is on offer now.
    Shared,
    /// It has a path, and no regular file lies there.
    NotAFile,
    /// It has no path.
    NoPath,
}

/// What comes of `dropped`.
pub open spec fn outcome_of(dropped: DroppedFile) -> DropOutcome {
    if dropped.path is None {
        DropOutcome::NoPath
    } else if dropped.is_file {
        DropOutcome::Shared
    } else {
        DropOutcome::NotAFile
    }
}

/// Whether a file is still on offer.
pub open spec fn on_offer(shared: SharedView) -> bool {
    !shared.cancel
}

/// Whether a download is still under way.
pub open spec fn under_way(download: DownloaderHandle) -> bool {
    !download.0.stop
}

/// The state of the front end.
#[derive(Debug)]
pub struct TransfertApp {
    pub shared: Vec<Shared>,
    pub downloader: Vec<DownloaderHandle>,
}

impl TransfertApp {
    /// The files on offer, in the order in which they are shown.
    pub open spec fn offers(&self) -> Seq<SharedView> {
        self.shared@.map_values(|s: Shared| s@)
    }

    /// A front end with nothing on offer and no download.
    pub fn new() -> (app: TransfertApp)
        ensures
            app.offers() == Seq::<SharedView>::empty(),
            app.downloader@ == Seq::<DownloaderHandle>::empty(),
    {
        let app = TransfertApp { shared: Vec::new(), downloader: Vec::new() };
        app
    }

    /// Takes in what was dropped on the window: a regular file with a path
    /// goes to the end of the offers, anything else is turned away.
    pub fn drop_file(&mut self, dropped: DroppedFile) -> (outcome: DropOutcome)
        ensures
            outcome == outcome_of(dropped),
            final(self).downloader == old(self).downloader,
            outcome is Shared ==> final(self).offers() == old(self).offers().push(
                SharedView { path: dropped.path.unwrap()@, size: dropped.size, cancel: false },
            ),
            !(outcome is Shared) ==> final(self).offers() == old(self).offers(),
    {
        match dropped.path {
            Some(path) => {
                if dropped.is_file {
                    let ghost before = self.offers();
                    let ghost added = SharedView { path: path@, size: dropped.size, cancel: false };
                    self.shared.push(Shared { path, size: dropped.size, cancel: false });
                    DropOutcome::Shared
                } else {
                    DropOutcome::NotAFile
                }
            },
            None => DropOutcome::NoPath,
        }
    }

    /// Ends a frame: the files that were taken back and the downloads that
    /// were told to end leave the lists, the others stay as they stand.
    pub fn update(&mut self)
        ensures
            final(self).offers() == old(self).offers().filter(|s: SharedView| on_offer(s)),
            final(self).downloader@ == old(self).downloader@.filter(
                |d: DownloaderHandle| under_way(d),
            ),
    {
        let ghost offers = self.offers();
        let mut shown: Vec<Shared> = Vec::new();
        std::mem::swap(&mut self.shared, &mut shown);
        assert(self.offers() =~= offers.take(0).filter(|s: SharedView| on_offer(s))) by {
            reveal(Seq::filter);
        }
        for shared in it: shown
            invariant
                it.seq().map_values(|s: Shared| s@) == offers,
                self.downloader == old(self).downloader,
                self.offers() == offers.take(it.index()).filter(|s: SharedView| on_offer(s)),
        {
            let ghost before = self.offers();
            let ghost seen = offers.take(it.index() + 1);
            assert(seen.drop_last() == offers.take(it.index()));
            assert(seen.filter(|s: SharedView| on_offer(s)) == if on_offer(shared@) {
                before.push(shared@)
            } else {
                before
            }) by {
                reveal(Seq::filter);
            }
            if !shared.cancel {
                self.shared.push(shared);
            }
        }
        assert(offers.take(offers.len() as int) == offers);

        let ghost downloads = self.downloader@;
        let mut i: usize = 0;
        let mut kept: Vec<DownloaderHandle> = Vec::new();
        assert(kept@ =~= downloads.take(0).filter(|d: DownloaderHandle| under_way(d))) by {
            reveal(Seq::filter);
        }
        while i < self.downloader.len()
            invariant
                i <= self.downloader.len(),
                self.downloader@ == downloads,
                self.offers() == offers.filter(|s: SharedView| on_offer(s)),
                kept@ == downloads.take(i as int).filter(|d: DownloaderHandle| under_way(d)),
            decreases self.downloader.len() - i,
        {
            let download = self.downloader[i];
            let ghost seen = downloads.take(i + 1);
            assert(seen.drop_last() == downloads.take(i as int));
            assert(seen.filter(|d: DownloaderHandle| under_way(d)) == if under_way(download) {
                kept@.push(download)
            } else {
                kept@
            }) by {
                reveal(Seq::filter);
            }
            if !download.cancelled() {
                kept.push(download);
            }
            i = i + 1;
        }
        assert(downloads.take(downloads.len() as int) == downloads);
        self.downloader = kept;
    }
}

} // verus!
