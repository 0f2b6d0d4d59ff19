//! The images, fonts and texts of an application.
use crate::images::{decode, decoded, is_cause, DecodeError, ImageType, RawImage};
use crate::platform::Platform;
use crate::registry::Registry;
use crate::text_cache::{law_texts_have_issued_ids, TextCache, TextId};
use vstd::prelude::*;

verus! {

/// The images, fonts and texts that an application has at hand.
pub struct AppResources<P: Platform> {
    images: Registry<RawImage>,
    fonts: Registry<P::Font>,
    deleted_fonts: Vec<String>,
    texts: TextCache,
}

/// What the resources of an application hold.
#[verifier::ext_equal]
pub struct ResourcesView<P: Platform> {
    /// The decoded images: width, height and pixels.
    pub images: Map<Seq<char>, (u32, u32, Seq<u8>)>,
    /// The registered fonts, those included that the next draw call removes.
    pub fonts: Map<Seq<char>, P::Font>,
    /// The IDs of the fonts that the next draw call removes.
    pub deleted_fonts: Set<Seq<char>>,
    /// The stored texts.
    pub texts: Map<TextId, Seq<char>>,
    /// How many text IDs were handed out.
    pub texts_issued: nat,
}

impl<P: Platform> ResourcesView<P> {
    /// Nothing is registered.
    pub open spec fn empty() -> Self {
        ResourcesView {
            images: Map::empty(),
            fonts: Map::empty(),
            deleted_fonts: Set::empty(),
            texts: Map::empty(),
            texts_issued: 0,
        }
    }

    /// An image is registered under an ID that is free; under one that is taken, nothing changes.
    pub open spec fn add_image(self, id: Seq<char>, image: (u32, u32, Seq<u8>)) -> Self {
        if self.images.contains_key(id) {
            self
        } else {
            ResourcesView { images: self.images.insert(id, image), ..self }
        }
    }

    /// The image under an ID is gone.
    pub open spec fn delete_image(self, id: Seq<char>) -> Self {
        ResourcesView { images: self.images.remove(id), ..self }
    }

    /// A font is registered under an ID that is free; under one that is taken, nothing changes.
    pub open spec fn add_font(self, id: Seq<char>, font: P::Font) -> Self {
        if self.fonts.contains_key(id) {
            self
        } else {
            ResourcesView { fonts: self.fonts.insert(id, font), ..self }
        }
    }

    /// The font under an ID, if there is one, goes away with the next draw call.
    pub open spec fn delete_font(self, id: Seq<char>) -> Self {
        if self.fonts.contains_key(id) {
            ResourcesView { deleted_fonts: self.deleted_fonts.insert(id), ..self }
        } else {
            self
        }
    }

    /// A draw call: the deleted fonts are gone.
    pub open spec fn draw(self) -> Self {
        ResourcesView {
            fonts: self.fonts.remove_keys(self.deleted_fonts),
            deleted_fonts: Set::empty(),
            ..self
        }
    }

    /// A text is stored under the next ID.
    pub open spec fn add_text(self, id: TextId, text: Seq<char>) -> Self {
        ResourcesView {
            texts: self.texts.insert(id, text),
            texts_issued: self.texts_issued + 1,
            ..self
        }
    }

    /// The text with an ID is gone.
    pub open spec fn delete_text(self, id: TextId) -> Self {
        ResourcesView { texts: self.texts.remove(id), ..self }
    }

    /// All texts are gone.
    pub open spec fn clear_all_texts(self) -> Self {
        ResourcesView { texts: Map::empty(), ..self }
    }
}

impl<P: Platform> View for AppResources<P> {
    type V = ResourcesView<P>;

    closed spec fn view(&self) -> ResourcesView<P> {
        ResourcesView {
            images: self.images@.map_values(|image: RawImage| image@),
            fonts: self.fonts@,
            deleted_fonts: strings(self.deleted_fonts@),
            texts: self.texts@,
            texts_issued: self.texts.issued(),
        }
    }
}

/// The set of the strings in a list.
spec fn strings(list: Seq<String>) -> Set<Seq<char>> {
    Set::new(|k: Seq<char>| exists|i: int| 0 <= i < list.len() && (#[trigger] list[i])@ == k)
}

impl<P: Platform> AppResources<P> {
    /// Resources without images, fonts and texts.
    pub fn new() -> (resources: Self)
        ensures
            resources@ == ResourcesView::<P>::empty(),
    {
        let resources = AppResources {
            images: Registry::new(),
            fonts: Registry::new(),
            deleted_fonts: Vec::new(),
            texts: TextCache::new(),
        };
        assert(resources@ =~= ResourcesView::<P>::empty());
        resources
    }

    /// Decodes an image and registers it under an ID.
    ///
    /// ## Returns
    ///
    /// - `Ok(Some(()))` if an image with the same ID already exists. It stays as it is, and the new
    ///   one is not decoded.
    /// - `Ok(None)` if the image was added, but didn't exist previously.
    /// - `Err(e)` if the image couldn't be decoded.
    pub fn add_image(&mut self, id: String, data: &[u8], image_type: ImageType) -> (added: Result<
        Option<()>,
        DecodeError,
    >)
        ensures
            match added {
                Ok(Some(_)) => old(self)@.images.contains_key(id@) && final(self)@ == old(self)@,
                Ok(None) => !old(self)@.images.contains_key(id@) && (decoded(
                    data@,
                    image_type,
                ) matches Some(image) && final(self)@ == old(self)@.add_image(id@, image)),
                Err(e) => !old(self)@.images.contains_key(id@) && decoded(
                    data@,
                    image_type,
                ) is None && is_cause(data, image_type, e) && final(self)@ == old(self)@,
            },
    {
        if self.images.contains(&id) {
            return Ok(Some(()));
        }
        self.register_image(id, decode(data, image_type))
    }

    /// Registers what an image was decoded to, as [`AppResources::add_image`] does.
    pub fn register_image(&mut self, id: String, image: Result<RawImage, DecodeError>) -> (added:
        Result<Option<()>, DecodeError>)
        ensures
            old(self)@.images.contains_key(id@) ==> added == Ok::<Option<()>, DecodeError>(
                Some(()),
            ) && final(self)@ == old(self)@,
            !old(self)@.images.contains_key(id@) ==> match image {
                Ok(raw) => added == Ok::<Option<()>, DecodeError>(None) && final(self)@ == old(
                    self,
                )@.add_image(id@, raw@),
                Err(e) => added == Err::<Option<()>, DecodeError>(e) && final(self)@ == old(self)@,
            },
    {
        if self.images.contains(&id) {
            return Ok(Some(()));
        }
        match image {
            Ok(raw) => {
                self.images.insert(id, raw);
                assert(self@ =~= old(self)@.add_image(id@, raw@));
                Ok(None)
            },
            Err(e) => Err(e),
        }
    }

    /// Removes an image. Returns `Some` if the image existed and was removed. If the given ID
    /// doesn't exist, this function does nothing and returns `None`.
    pub fn delete_image(&mut self, id: &String) -> (deleted: Option<()>)
        ensures
            deleted is Some == old(self)@.images.contains_key(id@),
            final(self)@ == old(self)@.delete_image(id@),
    {
        let removed = self.images.remove(id);
        assert(self@ =~= old(self)@.delete_image(id@));
        match removed {
            Some(_) => Some(()),
            None => None,
        }
    }

    /// Checks if an image is currently registered and ready-to-use.
    pub fn has_image(&self, id: &String) -> (found: bool)
        ensures
            found == self@.images.contains_key(id@),
    {
        self.images.contains(id)
    }

    /// The image under an ID.
    pub fn get_image(&self, id: &String) -> (image: Option<&RawImage>)
        ensures
            match image {
                Some(raw) => self@.images.contains_key(id@) && raw@ == self@.images[id@],
                None => !self@.images.contains_key(id@),
            },
    {
        self.images.get(id)
    }

    /// Registers a font under an ID, given what came of parsing it.
    ///
    /// ## Returns
    ///
    /// - `Ok(Some(()))` if a font with the same ID already exists. It stays as it is.
    /// - `Ok(None)` if the font was added, but didn't exist previously.
    /// - `Err(e)` if the font couldn't be decoded.
    pub fn add_font(&mut self, id: String, font: Result<P::Font, P::FontError>) -> (added: Result<
        Option<()>,
        P::FontError,
    >)
        ensures
            old(self)@.fonts.contains_key(id@) ==> added == Ok::<Option<()>, P::FontError>(
                Some(()),
            ) && final(self)@ == old(self)@,
            !old(self)@.fonts.contains_key(id@) ==> match font {
                Ok(f) => added == Ok::<Option<()>, P::FontError>(None) && final(self)@ == old(
                    self,
                )@.add_font(id@, f),
                Err(e) => added == Err::<Option<()>, P::FontError>(e) && final(self)@ == old(self)@,
            },
    {
        if self.fonts.contains(&id) {
            return Ok(Some(()));
        }
        match font {
            Ok(f) => {
                self.fonts.insert(id, f);
                assert(self@ =~= old(self)@.add_font(id@, f));
                Ok(None)
            },
            Err(e) => Err(e),
        }
    }

    /// Checks if a font is currently registered and ready-to-use. A font that was deleted is until
    /// the next draw call.
    pub fn has_font(&self, id: &String) -> (found: bool)
        ensures
            found == self@.fonts.contains_key(id@),
    {
        self.fonts.contains(id)
    }

    /// Deletes a font: the next draw call removes it.
    ///
    /// ## Returns
    ///
    /// - `Some(())` if the font existed and will be removed.
    /// - `None` if the given ID doesn't exist. In that case, the function does nothing.
    pub fn delete_font(&mut self, id: String) -> (deleted: Option<()>)
        ensures
            deleted is Some == old(self)@.fonts.contains_key(id@),
            final(self)@ == old(self)@.delete_font(id@),
    {
        if !self.fonts.contains(&id) {
            return None;
        }
        let ghost before = self.deleted_fonts@;
        self.deleted_fonts.push(id);
        proof {
            let after = self.deleted_fonts@;
            assert forall|k: Seq<char>|
                strings(after).contains(k) == strings(before).insert(id@).contains(k) by {
                if strings(before).contains(k) {
                    let i = choose|i: int| 0 <= i < before.len() && (#[trigger] before[i])@ == k;
                    assert(after[i]@ == k);
                }
                assert(after[before.len() as int]@ == id@);
            }
            assert(strings(after) =~= strings(before).insert(id@));
        }
        assert(self@ =~= old(self)@.delete_font(id@));
        Some(())
    }

    /// Removes the fonts that were deleted since the last draw call.
    pub fn draw(&mut self)
        ensures
            final(self)@ == old(self)@.draw(),
    {
        let ghost deleted = self.deleted_fonts@;
        let ghost fonts = self.fonts@;
        assert(strings(deleted.take(0)) =~= Set::empty());
        assert(fonts.remove_keys(Set::empty()) =~= fonts);
        let mut i: usize = 0;
        while i < self.deleted_fonts.len()
            invariant
                i <= deleted.len(),
                self.deleted_fonts@ == deleted,
                self.fonts@ == fonts.remove_keys(strings(deleted.take(i as int))),
                self.images == old(self).images,
                self.texts == old(self).texts,
            decreases deleted.len() - i,
        {
            self.fonts.remove(&self.deleted_fonts[i]);
            proof {
                let before = deleted.take(i as int);
                let after = deleted.take(i + 1);
                let id = deleted[i as int]@;
                assert forall|k: Seq<char>|
                    strings(after).contains(k) == strings(before).insert(id).contains(k) by {
                    if strings(before).contains(k) {
                        let j = choose|j: int|
                            0 <= j < before.len() && (#[trigger] before[j])@ == k;
                        assert(after[j]@ == k);
                    }
                    if strings(after).contains(k) {
                        let j = choose|j: int| 0 <= j < after.len() && (#[trigger] after[j])@ == k;
                        assert(j < i ==> before[j]@ == k);
                    }
                    assert(after[i as int]@ == id);
                }
                assert(self.fonts@ =~= fonts.remove_keys(strings(after)));
            }
            i = i + 1;
        }
        assert(deleted.take(i as int) =~= deleted);
        self.deleted_fonts = Vec::new();
        assert(strings(self.deleted_fonts@) =~= Set::empty());
        assert(self@ =~= old(self)@.draw());
    }

    /// Stores a text under a new ID.
    pub fn add_text(&mut self, text: String) -> (id: TextId)
        ensures
            id.number() == old(self)@.texts_issued,
            final(self)@ == old(self)@.add_text(id, text@),
    {
        self.texts.add_text(text)
    }

    /// Deletes the text with an ID, if there is one.
    pub fn delete_text(&mut self, id: TextId)
        ensures
            final(self)@ == old(self)@.delete_text(id),
    {
        self.texts.delete_text(id)
    }

    /// Deletes all texts.
    pub fn clear_all_texts(&mut self)
        ensures
            final(self)@ == old(self)@.clear_all_texts(),
    {
        self.texts.clear_all_texts()
    }

    /// The text with an ID.
    pub fn text(&self, id: TextId) -> (text: Option<&String>)
        ensures
            match text {
                Some(t) => self@.texts.contains_key(id) && t@ == self@.texts[id],
                None => !self@.texts.contains_key(id),
            },
    {
        self.texts.get(id)
    }
}

/// An image that was added is there until it is deleted, whatever happens to the other images.
pub proof fn law_images_stay_until_deleted<P: Platform>(
    resources: ResourcesView<P>,
    id: Seq<char>,
    image: (u32, u32, Seq<u8>),
    other: Seq<char>,
    other_image: (u32, u32, Seq<u8>),
)
    ensures
        resources.add_image(id, image).images.contains_key(id),
        !resources.delete_image(id).images.contains_key(id),
        other != id ==> {
            &&& resources.add_image(other, other_image).images.contains_key(id)
                == resources.images.contains_key(id)
            &&& resources.delete_image(other).images.contains_key(id)
                == resources.images.contains_key(id)
        },
{
}

/// Adding an image under an ID that is taken changes nothing; deleting an image under an ID that is
/// free changes nothing; and deleting an image that was added under a free ID undoes the addition.
pub proof fn law_adding_and_deleting_images<P: Platform>(
    resources: ResourcesView<P>,
    id: Seq<char>,
    image: (u32, u32, Seq<u8>),
)
    ensures
        resources.images.contains_key(id) ==> resources.add_image(id, image) == resources,
        !resources.images.contains_key(id) ==> resources.delete_image(id) == resources,
        !resources.images.contains_key(id) ==> resources.add_image(id, image).delete_image(id)
            == resources,
{
    if !resources.images.contains_key(id) {
        assert(resources.delete_image(id) =~= resources);
        assert(resources.add_image(id, image).delete_image(id) =~= resources);
    }
}

/// A font that is deleted stays registered until the next draw call and is gone after it. The
/// fonts that were not deleted stay.
pub proof fn law_deleted_fonts_go_with_the_next_draw<P: Platform>(
    resources: ResourcesView<P>,
    id: Seq<char>,
    other: Seq<char>,
)
    ensures
        resources.delete_font(id).fonts == resources.fonts,
        !resources.delete_font(id).draw().fonts.contains_key(id),
        other != id && !resources.deleted_fonts.contains(other) ==> {
            &&& resources.delete_font(id).draw().fonts.contains_key(other)
                == resources.fonts.contains_key(other)
            &&& resources.fonts.contains_key(other) ==> resources.delete_font(
                id,
            ).draw().fonts[other] == resources.fonts[other]
        },
{
}

/// After a deleted font was removed, it can be added again.
pub proof fn law_fonts_can_be_added_again<P: Platform>(
    resources: ResourcesView<P>,
    id: Seq<char>,
    font: P::Font,
)
    ensures
        ({
            let again = resources.delete_font(id).draw().add_font(id, font);
            &&& again.fonts.contains_key(id)
            &&& again.fonts[id] == font
            &&& !again.deleted_fonts.contains(id)
        }),
{
}

/// A second draw call changes nothing more.
pub proof fn law_drawing_twice<P: Platform>(resources: ResourcesView<P>)
    ensures
        resources.draw().draw() == resources.draw(),
{
    assert(resources.draw().draw() =~= resources.draw());
}

/// Deleting a text that was just added undoes the addition, apart from the ID that is used up.
pub proof fn law_deleting_an_added_text<P: Platform>(
    resources: ResourcesView<P>,
    id: TextId,
    text: Seq<char>,
)
    requires
        !resources.texts.contains_key(id),
    ensures
        resources.add_text(id, text).texts[id] == text,
        resources.add_text(id, text).delete_text(id).texts == resources.texts,
{
    assert(resources.add_text(id, text).delete_text(id).texts =~= resources.texts);
}

/// A text under a new ID is never mistaken for another one: no stored text has that ID.
pub proof fn law_new_text_ids_are_fresh<P: Platform>(resources: AppResources<P>, id: TextId)
    requires
        id.number() == resources@.texts_issued,
    ensures
        !resources@.texts.contains_key(id),
{
    if resources@.texts.contains_key(id) {
        law_texts_have_issued_ids(resources.texts, id);
    }
}

/// Something that is done to the resources of an application between two draw calls.
pub enum ResourceChange<P: Platform> {
    AddImage(Seq<char>, (u32, u32, Seq<u8>)),
    DeleteImage(Seq<char>),
    AddFont(Seq<char>, P::Font),
    DeleteFont(Seq<char>),
    AddText(TextId, Seq<char>),
    DeleteText(TextId),
    ClearAllTexts,
}

impl<P: Platform> ResourcesView<P> {
    /// The resources after one change.
    pub open spec fn changed(self, change: ResourceChange<P>) -> Self {
        match change {
            ResourceChange::AddImage(id, image) => self.add_image(id, image),
            ResourceChange::DeleteImage(id) => self.delete_image(id),
            ResourceChange::AddFont(id, font) => self.add_font(id, font),
            ResourceChange::DeleteFont(id) => self.delete_font(id),
            ResourceChange::AddText(id, text) => self.add_text(id, text),
            ResourceChange::DeleteText(id) => self.delete_text(id),
            ResourceChange::ClearAllTexts => self.clear_all_texts(),
        }
    }

    /// The resources after a series of changes.
    pub open spec fn changed_by(self, changes: Seq<ResourceChange<P>>) -> Self
        decreases changes.len(),
    {
        if changes.len() == 0 {
            self
        } else {
            self.changed_by(changes.drop_last()).changed(changes.last())
        }
    }
}

/// Two fonts that are deleted one after the other are both gone after the next draw call, and a
/// deletion never calls off another one.
pub proof fn law_deletions_of_fonts_add_up<P: Platform>(
    resources: ResourcesView<P>,
    a: Seq<char>,
    b: Seq<char>,
)
    ensures
        !resources.delete_font(a).delete_font(b).draw().fonts.contains_key(a),
        !resources.delete_font(a).delete_font(b).draw().fonts.contains_key(b),
        resources.delete_font(a).delete_font(b) == resources.delete_font(b).delete_font(a),
        resources.deleted_fonts.subset_of(resources.delete_font(a).deleted_fonts),
        resources.delete_font(a).deleted_fonts.contains(a) == (resources.fonts.contains_key(a)
            || resources.deleted_fonts.contains(a)),
        a != b ==> resources.delete_font(a).deleted_fonts.contains(b)
            == resources.deleted_fonts.contains(b),
{
    let one = resources.delete_font(a).delete_font(b);
    let two = resources.delete_font(b).delete_font(a);
    assert(one.deleted_fonts =~= two.deleted_fonts);
    assert(one =~= two);
}

/// A registered font that is deleted is gone after the next draw call, whatever is done to the
/// images, to the texts and to this and the other fonts in between.
pub proof fn law_a_deleted_font_is_gone_after_the_next_draw<P: Platform>(
    resources: ResourcesView<P>,
    id: Seq<char>,
    changes: Seq<ResourceChange<P>>,
)
    requires
        resources.fonts.contains_key(id),
    ensures
        resources.delete_font(id).changed_by(changes).fonts.contains_key(id),
        resources.delete_font(id).changed_by(changes).deleted_fonts.contains(id),
        !resources.delete_font(id).changed_by(changes).draw().fonts.contains_key(id),
    decreases changes.len(),
{
    if changes.len() > 0 {
        law_a_deleted_font_is_gone_after_the_next_draw(resources, id, changes.drop_last());
    }
}

/// A registered font that is not deleted is still there after the next draw call, the very same
/// font, whatever else is done in between.
pub proof fn law_a_font_that_is_not_deleted_stays<P: Platform>(
    resources: ResourcesView<P>,
    id: Seq<char>,
    changes: Seq<ResourceChange<P>>,
)
    requires
        resources.fonts.contains_key(id),
        !resources.deleted_fonts.contains(id),
        forall|k: int|
            0 <= k < changes.len() ==> (#[trigger] changes[k]) != ResourceChange::<P>::DeleteFont(
                id,
            ),
    ensures
        !resources.changed_by(changes).deleted_fonts.contains(id),
        resources.changed_by(changes).fonts.contains_key(id),
        resources.changed_by(changes).fonts[id] == resources.fonts[id],
        resources.changed_by(changes).draw().fonts.contains_key(id),
        resources.changed_by(changes).draw().fonts[id] == resources.fonts[id],
    decreases changes.len(),
{
    if changes.len() > 0 {
        let front = changes.drop_last();
        assert(forall|k: int| 0 <= k < front.len() ==> #[trigger] front[k] == changes[k]);
        assert(changes[changes.len() - 1] == changes.last());
        law_a_font_that_is_not_deleted_stays(resources, id, front);
    }
}

/// A registered image stays as it is until it is deleted, whatever else is done, draw calls
/// included.
pub proof fn law_an_image_that_is_not_deleted_stays<P: Platform>(
    resources: ResourcesView<P>,
    id: Seq<char>,
    changes: Seq<ResourceChange<P>>,
)
    requires
        resources.images.contains_key(id),
        forall|k: int|
            0 <= k < changes.len() ==> (#[trigger] changes[k]) != ResourceChange::<P>::DeleteImage(
                id,
            ),
    ensures
        resources.changed_by(changes).images.contains_key(id),
        resources.changed_by(changes).images[id] == resources.images[id],
        resources.changed_by(changes).draw().images.contains_key(id),
        resources.changed_by(changes).draw().images[id] == resources.images[id],
    decreases changes.len(),
{
    if changes.len() > 0 {
        let front = changes.drop_last();
        assert(forall|k: int| 0 <= k < front.len() ==> #[trigger] front[k] == changes[k]);
        assert(changes[changes.len() - 1] == changes.last());
        law_an_image_that_is_not_deleted_stays(resources, id, front);
    }
}

/// Nothing is registered at first, and no ID was handed out.
pub proof fn law_nothing_is_registered_at_first<P: Platform>(id: Seq<char>, text: TextId)
    ensures
        !ResourcesView::<P>::empty().images.contains_key(id),
        !ResourcesView::<P>::empty().fonts.contains_key(id),
        !ResourcesView::<P>::empty().deleted_fonts.contains(id),
        !ResourcesView::<P>::empty().texts.contains_key(text),
        ResourcesView::<P>::empty().texts_issued == 0,
{
}

/// What is added under a free ID is what is found there. What is under other IDs stays as it is, and
/// nothing comes or goes there.
pub proof fn law_what_was_added_is_found<P: Platform>(
    resources: ResourcesView<P>,
    id: Seq<char>,
    other: Seq<char>,
    image: (u32, u32, Seq<u8>),
    font: P::Font,
)
    ensures
        !resources.images.contains_key(id) ==> resources.add_image(id, image).images.contains_key(
            id,
        ) && resources.add_image(id, image).images[id] == image,
        !resources.fonts.contains_key(id) ==> resources.add_font(id, font).fonts.contains_key(id)
            && resources.add_font(id, font).fonts[id] == font,
        resources.images.contains_key(id) ==> resources.add_image(id, image) == resources,
        resources.fonts.contains_key(id) ==> resources.add_font(id, font) == resources,
        other != id ==> {
            let added = resources.add_image(id, image).images;
            let deleted = resources.delete_image(id).images;
            let fonts = resources.add_font(id, font).fonts;
            &&& added.contains_key(other) == resources.images.contains_key(other)
            &&& deleted.contains_key(other) == resources.images.contains_key(other)
            &&& fonts.contains_key(other) == resources.fonts.contains_key(other)
            &&& resources.images.contains_key(other) ==> added[other] == resources.images[other]
                && deleted[other] == resources.images[other]
            &&& resources.fonts.contains_key(other) ==> fonts[other] == resources.fonts[other]
        },
        !resources.delete_image(id).images.contains_key(id),
{
}

/// A draw call removes exactly the fonts that were deleted, and after it none is left to be removed.
pub proof fn law_a_draw_call_removes_exactly_the_deleted_fonts<P: Platform>(
    resources: ResourcesView<P>,
    id: Seq<char>,
)
    ensures
        resources.draw().fonts.contains_key(id) == (resources.fonts.contains_key(id)
            && !resources.deleted_fonts.contains(id)),
        resources.draw().fonts.contains_key(id) ==> resources.draw().fonts[id]
            == resources.fonts[id],
        !resources.draw().deleted_fonts.contains(id),
{
}

/// Whatever is done to the images, the fonts or the texts leaves the two others alone.
pub proof fn law_images_fonts_and_texts_are_kept_apart<P: Platform>(
    resources: ResourcesView<P>,
    id: Seq<char>,
    image: (u32, u32, Seq<u8>),
    font: P::Font,
    text_id: TextId,
    text: Seq<char>,
)
    ensures
        ({
            let added = resources.add_image(id, image);
            let deleted = resources.delete_image(id);
            &&& added.fonts == resources.fonts && added.deleted_fonts == resources.deleted_fonts
            &&& added.texts == resources.texts && added.texts_issued == resources.texts_issued
            &&& deleted.fonts == resources.fonts && deleted.deleted_fonts == resources.deleted_fonts
            &&& deleted.texts == resources.texts && deleted.texts_issued == resources.texts_issued
        }),
        ({
            let added = resources.add_font(id, font);
            let deleted = resources.delete_font(id);
            let drawn = resources.draw();
            &&& added.images == resources.images && added.deleted_fonts == resources.deleted_fonts
            &&& added.texts == resources.texts && added.texts_issued == resources.texts_issued
            &&& deleted.images == resources.images && deleted.fonts == resources.fonts
            &&& deleted.texts == resources.texts && deleted.texts_issued == resources.texts_issued
            &&& drawn.images == resources.images
            &&& drawn.texts == resources.texts && drawn.texts_issued == resources.texts_issued
        }),
        ({
            let added = resources.add_text(text_id, text);
            let deleted = resources.delete_text(text_id);
            let cleared = resources.clear_all_texts();
            &&& added.images == resources.images && added.fonts == resources.fonts
            &&& added.deleted_fonts == resources.deleted_fonts
            &&& deleted.images == resources.images && deleted.fonts == resources.fonts
            &&& deleted.deleted_fonts == resources.deleted_fonts
            &&& cleared.images == resources.images && cleared.fonts == resources.fonts
            &&& cleared.deleted_fonts == resources.deleted_fonts
        }),
{
}

/// A stored text is found under its ID, a deleted one is not, and the other texts stay as they are.
/// Clearing leaves no text. Only storing a text uses up an ID, and exactly one.
pub proof fn law_texts_do_not_disturb_each_other<P: Platform>(
    resources: ResourcesView<P>,
    id: TextId,
    text: Seq<char>,
    other: TextId,
)
    ensures
        resources.add_text(id, text).texts.contains_key(id),
        resources.add_text(id, text).texts[id] == text,
        !resources.delete_text(id).texts.contains_key(id),
        other != id ==> {
            let added = resources.add_text(id, text).texts;
            let deleted = resources.delete_text(id).texts;
            &&& added.contains_key(other) == resources.texts.contains_key(other)
            &&& deleted.contains_key(other) == resources.texts.contains_key(other)
            &&& resources.texts.contains_key(other) ==> added[other] == resources.texts[other]
                && deleted[other] == resources.texts[other]
        },
        !resources.clear_all_texts().texts.contains_key(other),
        resources.add_text(id, text).texts_issued == resources.texts_issued + 1,
        resources.delete_text(id).texts_issued == resources.texts_issued,
        resources.clear_all_texts().texts_issued == resources.texts_issued,
{
}

} // verus!
