//! The images queued in the input bar of a connection, waiting to be
//! uploaded with the next line.
use vstd::prelude::*;
use crate::input::{
    image_display_name, image_extension, is_image_path, spec_path_extension, spec_path_file_name,
};
use crate::text;

verus! {

/// A queued image: the name shown under its thumbnail and its path.
#[derive(Debug)]
pub struct PendingImage {
    pub name: String,
    pub path: String,
}

/// The queue of images of one input bar.
#[derive(Debug)]
pub struct ImageQueue {
    pub images: Vec<PendingImage>,
}

/// Whether the file `p` is taken as an image.
pub open spec fn is_image_spec(p: Seq<char>) -> bool {
    spec_path_extension(p) matches Some(e) && image_extension(text::lower_seq(e))
}

/// The name shown under the image `p`: its file name, or "image".
pub open spec fn display_name_spec(p: Seq<char>) -> Seq<char> {
    match spec_path_file_name(p) {
        Some(n) => n,
        None => "image"@,
    }
}

/// What `paths` adds to the queue, as (name, path): the images among them,
/// in order.
pub open spec fn queued_from(paths: Seq<String>) -> Seq<(Seq<char>, Seq<char>)>
    decreases paths.len(),
{
    if paths.len() == 0 {
        Seq::empty()
    } else {
        let rest = queued_from(paths.drop_last());
        let p = paths.last()@;
        if is_image_spec(p) {
            rest.push((display_name_spec(p), p))
        } else {
            rest
        }
    }
}

impl ImageQueue {
    /// The queue as (name, path) pairs, first queued first.
    pub open spec fn items(self) -> Seq<(Seq<char>, Seq<char>)> {
        self.images@.map_values(|i: PendingImage| (i.name@, i.path@))
    }

    /// An empty queue.
    pub fn new() -> (q: Self)
        ensures
            q.items().len() == 0,
    {
        ImageQueue { images: Vec::new() }
    }

    /// Queues the images among `paths`, each under its file name; files
    /// that are not images are skipped. While an upload runs nothing is
    /// queued. Returns how many were queued.
    pub fn add_paths(&mut self, paths: &Vec<String>, uploading: bool) -> (added: usize)
        ensures
            uploading ==> added == 0 && final(self).items() == old(self).items(),
            !uploading ==> final(self).items() == old(self).items() + queued_from(paths@)
                && added == queued_from(paths@).len(),
    {
        if uploading {
            return 0;
        }
        let ghost start = self.items();
        let mut added: usize = 0;
        let mut i: usize = 0;
        while i < paths.len()
            invariant
                i <= paths.len(),
                self.items() == start + queued_from(paths@.take(i as int)),
                added == queued_from(paths@.take(i as int)).len(),
                added <= i,
            decreases paths.len() - i,
        {
            proof {
                assert(paths@.take(i + 1).drop_last() == paths@.take(i as int));
                assert(paths@.take(i + 1).last() == paths@[i as int]);
            }
            let p = &paths[i];
            if is_image_path(p.as_str()) {
                let name = image_display_name(p.as_str());
                let ghost before = self.images@;
                self.images.push(PendingImage { name, path: p.clone() });
                proof {
                    assert(self.images@ == before.push(self.images@[before.len() as int]));
                    assert(self.items() == before.map_values(
                        |i: PendingImage| (i.name@, i.path@),
                    ).push((self.images@[before.len() as int].name@, p@)));
                }
                added += 1;
            }
            i += 1;
        }
        assert(paths@.take(i as int) == paths@);
        added
    }

    /// Drops the image at `index` (its remove button); an index past the end
    /// changes nothing.
    pub fn remove(&mut self, index: usize)
        ensures
            index < old(self).items().len() ==> final(self).items() == old(self).items().remove(
                index as int,
            ),
            index >= old(self).items().len() ==> final(self).items() == old(self).items(),
    {
        if index < self.images.len() {
            let ghost before = self.images@;
            self.images.remove(index);
            assert(self.items() == before.map_values(|i: PendingImage| (i.name@, i.path@)).remove(
                index as int,
            ));
        }
    }

    /// An upload batch ended. When it was aborted after `succeeded` images,
    /// those leave the queue and the rest stay, with the typed text, to be
    /// sent again; when it completed, the queue empties and the typed text is
    /// cleared. Returns whether the text is to be cleared.
    pub fn finish_batch(&mut self, aborted: Option<(usize, usize)>) -> (clear_text: bool)
        ensures
            match aborted {
                Some((succeeded, _)) => {
                    &&& !clear_text
                    &&& final(self).items() == old(self).items().skip(
                        if succeeded < old(self).items().len() {
                            succeeded as int
                        } else {
                            old(self).items().len() as int
                        },
                    )
                },
                None => clear_text && final(self).items().len() == 0,
            },
    {
        match aborted {
            Some((succeeded, _)) => {
                let n = if succeeded < self.images.len() {
                    succeeded
                } else {
                    self.images.len()
                };
                let ghost old_items = self.items();
                let mut k: usize = 0;
                while k < n
                    invariant
                        k <= n,
                        n <= old_items.len(),
                        self.items() == old_items.skip(k as int),
                        self.images@.len() == old_items.len() - k,
                    decreases n - k,
                {
                    let ghost before = self.images@;
                    self.images.remove(0);
                    proof {
                        assert(self.items() == before.map_values(
                            |i: PendingImage| (i.name@, i.path@),
                        ).remove(0));
                        assert(old_items.skip(k as int).remove(0) == old_items.skip(k + 1));
                    }
                    k += 1;
                }
                false
            },
            None => {
                self.images.clear();
                true
            },
        }
    }
}

} // verus!
