use vstd::prelude::*;
use crate::canvas::{CanvasState, CanvasView};
use crate::error::Error;
use crate::geometry::Size;
use crate::layer::{Layer, canvas_ok, decoded_size};

verus! {

/// What the host tells the editor.
#[derive(Debug)]
pub enum Message {
    SetCanvasSize(u32, u32),
    OpenAudioFile,
    RemoveAudioFile,
    /// The path and the contents of a picked audio file, or why there are none.
    AudioFileOpened(Result<(String, Vec<u8>), Error>),
    AddImageLayer,
    RemoveLayer(usize),
    /// The display name (where the path gives one) and the contents of a
    /// picked image file, or why there are none.
    ImageFileOpened(Result<(Option<String>, Vec<u8>), Error>),
    LayerSelected(usize),
    SelectLastLayer,
    Tick,
}

/// What the host is to do after a message.
#[derive(Clone, Copy, Debug, PartialEq, Eq, Structural)]
pub enum Action {
    Nothing,
    /// Let the user pick an audio file, then send `AudioFileOpened`.
    PickAudioFile,
    /// Let the user pick an image file, then send `ImageFileOpened`.
    PickImageFile,
}

/// The names of `layers`, in order.
pub open spec fn names_of(layers: Seq<Layer>) -> Seq<Seq<char>> {
    layers.map_values(|l: Layer| l.name@)
}

/// The index selected after a change of the layers: the last one, or 0
/// where there is none.
pub open spec fn last_index(len: nat) -> nat {
    if len == 0 {
        0
    } else {
        (len - 1) as nat
    }
}

/// What the editor holds, as seen by its contracts.
pub struct EditorView {
    pub canvas: CanvasView,
    pub canvas_size: Size,
    pub audio_file_path: Option<Seq<char>>,
    pub audio_file_contents: Seq<u8>,
    pub is_loading_file: bool,
    /// The names listed for the layers.
    pub layer_names: Seq<Seq<char>>,
    pub selected_layer_index: nat,
}

/// The editor: a canvas of layers, the canvas size, one attached audio file,
/// the listed layer names and the selected layer.
#[derive(Debug)]
pub struct Roygbiv {
    canvas_state: CanvasState,
    canvas_size: Size,
    audio_file_path: Option<String>,
    audio_file_contents: Vec<u8>,
    is_loading_file: bool,
    layer_names: Vec<String>,
    selected_layer_index: usize,
}

impl View for Roygbiv {
    type V = EditorView;

    closed spec fn view(&self) -> EditorView {
        EditorView {
            canvas: self.canvas_state@,
            canvas_size: self.canvas_size,
            audio_file_path: match self.audio_file_path {
                Some(p) => Some(p@),
                None => None,
            },
            audio_file_contents: self.audio_file_contents@,
            is_loading_file: self.is_loading_file,
            layer_names: self.layer_names@.map_values(|s: String| s@),
            selected_layer_index: self.selected_layer_index as nat,
        }
    }
}

/// `post` is `pre` with only its layers, the kept composite, the listed
/// names and the selection changed: to `layers`, dropped, the names of
/// `layers`, and the last layer.
pub open spec fn relayered(pre: EditorView, layers: Seq<Layer>, post: EditorView) -> bool {
    &&& crate::canvas::reshaped(pre.canvas, layers, post.canvas)
    &&& post.layer_names == names_of(layers)
    &&& post.selected_layer_index == last_index(layers.len())
    &&& post.canvas_size == pre.canvas_size
    &&& post.audio_file_path == pre.audio_file_path
    &&& post.audio_file_contents == pre.audio_file_contents
    &&& post.is_loading_file == pre.is_loading_file
}

/// `post` is `pre` after one layer was put on top of its layers.
pub open spec fn appended(pre: EditorView, post: EditorView) -> bool {
    &&& post.canvas.layers.len() == pre.canvas.layers.len() + 1
    &&& post.canvas.layers.take(pre.canvas.layers.len() as int) == pre.canvas.layers
    &&& relayered(pre, post.canvas.layers, post)
}

/// `post` is `pre` with the selection set to `index` and nothing else changed.
pub open spec fn selected(pre: EditorView, index: nat, post: EditorView) -> bool {
    post == EditorView { selected_layer_index: index, ..pre }
}

impl Roygbiv {
    /// The canvas well formed, its size one from which a fallback layer size
    /// is positive, and the listed names those of the layers.
    pub open spec fn wf(&self) -> bool {
        &&& self.canvas_wf()
        &&& canvas_ok(self@.canvas_size)
        &&& self@.layer_names == names_of(self@.canvas.layers)
    }

    pub closed spec fn canvas_wf(&self) -> bool {
        self.canvas_state.wf()
    }

    /// An editor with no layers and no audio, for a canvas of the given size.
    pub fn new(canvas_width: u32, canvas_height: u32) -> (r: Roygbiv)
        requires
            canvas_ok(Size { width: canvas_width, height: canvas_height }),
        ensures
            r.wf(),
            r@.canvas.layers.len() == 0,
            r@.canvas.background is None,
            r@.canvas.surface is None,
            r@.canvas_size == (Size { width: canvas_width, height: canvas_height }),
            r@.audio_file_path is None,
            r@.audio_file_contents.len() == 0,
            !r@.is_loading_file,
            r@.selected_layer_index == 0,
    {
        let r = Roygbiv {
            canvas_state: CanvasState::new(),
            canvas_size: Size { width: canvas_width, height: canvas_height },
            audio_file_path: None,
            audio_file_contents: Vec::new(),
            is_loading_file: false,
            layer_names: Vec::new(),
            selected_layer_index: 0,
        };
        assert(r@.layer_names =~= names_of(r@.canvas.layers));
        r
    }

    pub fn canvas_state(&self) -> (r: &CanvasState)
        requires
            self.wf(),
        ensures
            r@ == self@.canvas,
            r.wf(),
    {
        &self.canvas_state
    }

    pub fn canvas_size(&self) -> (r: Size)
        ensures
            r == self@.canvas_size,
    {
        self.canvas_size
    }

    pub fn audio_file_path(&self) -> (r: Option<&String>)
        ensures
            match r {
                Some(p) => self@.audio_file_path == Some(p@),
                None => self@.audio_file_path is None,
            },
    {
        self.audio_file_path.as_ref()
    }

    pub fn is_loading_file(&self) -> (r: bool)
        ensures
            r == self@.is_loading_file,
    {
        self.is_loading_file
    }

    pub fn selected_layer_index(&self) -> (r: usize)
        ensures
            r == self@.selected_layer_index,
    {
        self.selected_layer_index
    }

    /// One frame of the canvas at output size `bounds`; see `CanvasState::draw`.
    pub fn draw(&mut self, bounds: Size) -> (r: crate::canvas::Drawing)
        requires
            old(self).wf(),
        ensures
            final(self).wf(),
            final(self)@ == (EditorView { canvas: final(self)@.canvas, ..old(self)@ }),
            crate::canvas::background_query(
                old(self)@.canvas,
                bounds,
                crate::canvas::with_background(old(self)@.canvas, bounds),
                r.background,
            ),
            crate::canvas::layers_query(
                crate::canvas::with_background(old(self)@.canvas, bounds),
                bounds,
                final(self)@.canvas,
                r.layers@,
            ),
    {
        self.canvas_state.draw(bounds)
    }

    /// The names listed for the layers, in paint order.
    pub fn layer_names(&self) -> (r: &Vec<String>)
        ensures
            r@.map_values(|s: String| s@) == self@.layer_names,
    {
        &self.layer_names
    }

    /// The selected layer, or `None` where the selection names no layer.
    pub fn current(&self) -> (r: Option<&Layer>)
        ensures
            self@.selected_layer_index < self@.canvas.layers.len() ==> r == Some(
                &self@.canvas.layers[self@.selected_layer_index as int],
            ),
            self@.selected_layer_index >= self@.canvas.layers.len() ==> r is None,
    {
        self.canvas_state.get(self.selected_layer_index)
    }

    /// Lists the names of the layers anew.
    fn update_layer_names(&mut self)
        requires
            old(self).canvas_wf(),
        ensures
            final(self)@ == (EditorView { layer_names: names_of(old(self)@.canvas.layers), ..old(self)@ }),
            final(self).canvas_wf(),
    {
        self.layer_names = self.canvas_state.names();
        assert(self@.layer_names =~= names_of(self@.canvas.layers));
    }

    /// Selects the layer at `index`, whether or not there is one: `current`
    /// tells.
    pub fn select(&mut self, index: usize)
        requires
            old(self).wf(),
        ensures
            final(self).wf(),
            selected(old(self)@, index as nat, final(self)@),
    {
        self.selected_layer_index = index;
    }

    /// Selects the last layer, or index 0 where there is none.
    pub fn select_last(&mut self)
        requires
            old(self).wf(),
        ensures
            final(self).wf(),
            selected(old(self)@, last_index(old(self)@.canvas.layers.len()), final(self)@),
    {
        let n = self.canvas_state.len();
        self.selected_layer_index = if n == 0 {
            0
        } else {
            n - 1
        };
    }

    /// Puts `layer` on top and selects it.
    pub fn append_layer(&mut self, layer: Layer)
        requires
            old(self).wf(),
            layer.wf(),
        ensures
            final(self).wf(),
            relayered(old(self)@, old(self)@.canvas.layers.push(layer), final(self)@),
    {
        self.canvas_state.append(layer);
        self.update_layer_names();
        self.select_last();
    }

    /// Takes out the layer at `index` and selects the last layer; fails
    /// where `index` names no layer, and then changes nothing.
    pub fn remove_layer(&mut self, index: usize) -> (r: Result<Layer, Error>)
        requires
            old(self).wf(),
        ensures
            final(self).wf(),
            index < old(self)@.canvas.layers.len() ==> {
                &&& r == Ok::<Layer, Error>(old(self)@.canvas.layers[index as int])
                &&& relayered(old(self)@, old(self)@.canvas.layers.remove(index as int), final(self)@)
            },
            index >= old(self)@.canvas.layers.len() ==> {
                &&& r == Err::<Layer, Error>(Error::IndexOutOfRange)
                &&& final(self)@ == old(self)@
            },
    {
        let r = self.canvas_state.remove_at(index);
        if r.is_ok() {
            self.update_layer_names();
            self.select_last();
        }
        r
    }

    /// Adds a layer for the image in `contents`, named `name` (or
    /// "Unnamed"), sized by decoding the image or, where it does not decode,
    /// by the canvas less the margin; then selects it.
    pub fn add_image_layer(&mut self, name: Option<String>, contents: Vec<u8>)
        requires
            old(self).wf(),
        ensures
            final(self).wf(),
            appended(old(self)@, final(self)@),
            Layer::new_spec(
                match name {
                    Some(n) => Some(n@),
                    None => None,
                },
                contents@,
                decoded_size(contents@),
                old(self)@.canvas_size,
                final(self)@.canvas.layers.last(),
            ),
    {
        let ghost pre = self@;
        let layer = Layer::from_image(name, contents, self.canvas_size);
        let ghost l = layer;
        self.append_layer(layer);
        assert(self@.canvas.layers.take(pre.canvas.layers.len() as int) =~= pre.canvas.layers);
        assert(self@.canvas.layers.last() == l);
    }

    /// Applies one message of the host and says what the host is to do next.
    /// Fails only on `RemoveLayer` with an index that names no layer, and
    /// then changes nothing.
    pub fn update(&mut self, message: Message) -> (r: Result<Action, Error>)
        requires
            old(self).wf(),
        ensures
            final(self).wf(),
            update_spec(old(self)@, message, final(self)@, r),
    {
        match message {
            Message::SetCanvasSize(width, height) => {
                let size = Size { width, height };
                if size.width > crate::geometry::MARGIN && size.height > crate::geometry::MARGIN {
                    self.canvas_size = size;
                }
                Ok(Action::Nothing)
            },
            Message::OpenAudioFile => {
                if self.is_loading_file {
                    Ok(Action::Nothing)
                } else {
                    self.is_loading_file = true;
                    Ok(Action::PickAudioFile)
                }
            },
            Message::RemoveAudioFile => {
                self.is_loading_file = false;
                self.audio_file_path = None;
                self.audio_file_contents = Vec::new();
                Ok(Action::Nothing)
            },
            Message::AudioFileOpened(result) => {
                self.is_loading_file = false;
                match result {
                    Ok((path, contents)) => {
                        self.audio_file_path = Some(path);
                        self.audio_file_contents = contents;
                    },
                    Err(_) => {},
                }
                Ok(Action::Nothing)
            },
            Message::AddImageLayer => Ok(Action::PickImageFile),
            Message::RemoveLayer(index) => {
                match self.remove_layer(index) {
                    Ok(_) => Ok(Action::Nothing),
                    Err(e) => Err(e),
                }
            },
            Message::ImageFileOpened(result) => {
                match result {
                    Ok((name, contents)) => self.add_image_layer(name, contents),
                    Err(_) => self.select_last(),
                }
                Ok(Action::Nothing)
            },
            Message::LayerSelected(index) => {
                self.select(index);
                Ok(Action::Nothing)
            },
            Message::SelectLastLayer => {
                self.select_last();
                Ok(Action::Nothing)
            },
            Message::Tick => {
                self.canvas_state.update();
                Ok(Action::Nothing)
            },
        }
    }
}

/// `post` and `r` are what `update` makes of `pre` and `message`.
pub open spec fn update_spec(pre: EditorView, message: Message, post: EditorView, r: Result<Action, Error>) -> bool {
    match message {
        Message::SetCanvasSize(width, height) => {
            let size = Size { width, height };
            &&& r == Ok::<Action, Error>(Action::Nothing)
            &&& post == if canvas_ok(size) {
                EditorView { canvas_size: size, ..pre }
            } else {
                pre
            }
        },
        Message::OpenAudioFile => if pre.is_loading_file {
            r == Ok::<Action, Error>(Action::Nothing) && post == pre
        } else {
            r == Ok::<Action, Error>(Action::PickAudioFile) && post == (EditorView { is_loading_file: true, ..pre })
        },
        Message::RemoveAudioFile => {
            &&& r == Ok::<Action, Error>(Action::Nothing)
            &&& post == (EditorView {
                is_loading_file: false,
                audio_file_path: None,
                audio_file_contents: Seq::empty(),
                ..pre
            })
        },
        Message::AudioFileOpened(result) => {
            &&& r == Ok::<Action, Error>(Action::Nothing)
            &&& post == match result {
                Ok((path, contents)) => EditorView {
                    is_loading_file: false,
                    audio_file_path: Some(path@),
                    audio_file_contents: contents@,
                    ..pre
                },
                Err(_) => EditorView { is_loading_file: false, ..pre },
            }
        },
        Message::AddImageLayer => r == Ok::<Action, Error>(Action::PickImageFile) && post == pre,
        Message::RemoveLayer(index) => if index < pre.canvas.layers.len() {
            &&& r == Ok::<Action, Error>(Action::Nothing)
            &&& relayered(pre, pre.canvas.layers.remove(index as int), post)
        } else {
            r == Err::<Action, Error>(Error::IndexOutOfRange) && post == pre
        },
        Message::ImageFileOpened(result) => {
            &&& r == Ok::<Action, Error>(Action::Nothing)
            &&& match result {
                Ok((name, contents)) => {
                    &&& appended(pre, post)
                    &&& Layer::new_spec(
                        match name {
                            Some(n) => Some(n@),
                            None => None,
                        },
                        contents@,
                        decoded_size(contents@),
                        pre.canvas_size,
                        post.canvas.layers.last(),
                    )
                },
                Err(_) => selected(pre, last_index(pre.canvas.layers.len()), post),
            }
        },
        Message::LayerSelected(index) => {
            r == Ok::<Action, Error>(Action::Nothing) && selected(pre, index as nat, post)
        },
        Message::SelectLastLayer => {
            &&& r == Ok::<Action, Error>(Action::Nothing)
            &&& selected(pre, last_index(pre.canvas.layers.len()), post)
        },
        Message::Tick => {
            &&& r == Ok::<Action, Error>(Action::Nothing)
            &&& post == (EditorView { canvas: CanvasView { surface: None, ..pre.canvas }, ..pre })
        },
    }
}

} // verus!

verus! {

/// Appending layers one at a time to an editor with none lists their names in
/// the order in which they were appended, one name for each layer.
pub proof fn lemma_names_follow_appends(views: Seq<EditorView>, layers: Seq<Layer>)
    requires
        views.len() == layers.len() + 1,
        views[0].canvas.layers.len() == 0,
        views[0].layer_names == names_of(views[0].canvas.layers),
        forall|k: int|
            0 <= k < layers.len() ==> relayered(
                #[trigger] views[k],
                views[k].canvas.layers.push(layers[k]),
                views[k + 1],
            ),
    ensures
        views.last().canvas.layers == layers,
        views.last().layer_names == names_of(layers),
        views.last().layer_names.len() == layers.len(),
    decreases layers.len(),
{
    if layers.len() == 0 {
        assert(views.last().canvas.layers =~= layers);
        assert(names_of(layers) =~= names_of(views[0].canvas.layers));
    } else {
        let n = layers.len() - 1;
        let vs = views.take(n + 1);
        let ls = layers.take(n);
        assert forall|k: int| 0 <= k < ls.len() implies relayered(
            #[trigger] vs[k],
            vs[k].canvas.layers.push(ls[k]),
            vs[k + 1],
        ) by {
            assert(vs[k] == views[k] && vs[k + 1] == views[k + 1] && ls[k] == layers[k]);
        }
        lemma_names_follow_appends(vs, ls);
        assert(vs.last() == views[n]);
        assert(relayered(views[n], views[n].canvas.layers.push(layers[n]), views[n + 1]));
        assert(ls.push(layers[n]) =~= layers);
        assert(names_of(layers).len() == layers.len());
    }
}

/// The name that an opened image file gives its layer: the one it came
/// with, or "Unnamed".
pub open spec fn opened_name(message: Message) -> Seq<char> {
    match message {
        Message::ImageFileOpened(Ok((Some(n), _))) => n@,
        _ => crate::layer::unnamed(),
    }
}

/// What `update` does on an opened image file: one layer appended, named
/// as the file was.
proof fn lemma_opened_image_step(pre: EditorView, message: Message, post: EditorView, r: Result<Action, Error>)
    requires
        message matches Message::ImageFileOpened(Ok(_)),
        update_spec(pre, message, post, r),
    ensures
        appended(pre, post),
        post.canvas.layers.last().name@ == opened_name(message),
{
}

/// Step `k` of a run of appends: `views[k + 1]` is `views[k]` with a layer
/// named `names[k]` put on top.
spec fn appended_named(views: Seq<EditorView>, names: Seq<Seq<char>>, k: int) -> bool {
    &&& appended(views[k], views[k + 1])
    &&& views[k + 1].canvas.layers.last().name@ == names[k]
}

/// Appending layers one at a time, the k-th named `names[k]`, to an editor
/// with none lists exactly those names, in that order.
proof fn lemma_appends_named(views: Seq<EditorView>, names: Seq<Seq<char>>)
    requires
        views.len() == names.len() + 1,
        views[0].canvas.layers.len() == 0,
        views[0].layer_names == names_of(views[0].canvas.layers),
        forall|k: int| 0 <= k < names.len() ==> #[trigger] appended_named(views, names, k),
    ensures
        views.last().canvas.layers.len() == names.len(),
        views.last().layer_names == names,
        views.last().layer_names == names_of(views.last().canvas.layers),
    decreases names.len(),
{
    if names.len() == 0 {
        assert(views.last().layer_names =~= names);
    } else {
        let n = names.len() - 1;
        let vs = views.take(n + 1);
        let ns = names.take(n);
        assert forall|k: int| 0 <= k < ns.len() implies #[trigger] appended_named(vs, ns, k) by {
            assert(appended_named(views, names, k));
            assert(vs[k] == views[k] && vs[k + 1] == views[k + 1] && ns[k] == names[k]);
        }
        assert(vs[0] == views[0]);
        lemma_appends_named(vs, ns);
        assert(vs.last() == views[n]);
        let pre = views[n];
        let post = views[n + 1];
        assert(appended_named(views, names, n));
        assert(pre.layer_names == ns);
        assert(post.canvas.layers.len() == n + 1);
        assert(post.layer_names == names_of(post.canvas.layers));
        assert forall|k: int| 0 <= k < names.len() implies post.layer_names[k] == names[k] by {
            assert(post.layer_names[k] == post.canvas.layers[k].name@);
            if k < n {
                assert(post.canvas.layers[k] == post.canvas.layers.take(n as int)[k]);
                assert(pre.layer_names[k] == pre.canvas.layers[k].name@);
                assert(ns[k] == names[k]);
            } else {
                assert(post.canvas.layers[k] == post.canvas.layers.last());
            }
        }
        assert(post.layer_names =~= names);
        assert(views.last() == post);
    }
}

/// Opening image files one after another in an editor with no layers lists
/// one name for each file, in the order in which they were opened.
pub proof fn lemma_opened_images_listed_in_order(
    views: Seq<EditorView>,
    messages: Seq<Message>,
    results: Seq<Result<Action, Error>>,
)
    requires
        views.len() == messages.len() + 1,
        results.len() == messages.len(),
        views[0].canvas.layers.len() == 0,
        views[0].layer_names == names_of(views[0].canvas.layers),
        forall|k: int|
            0 <= k < messages.len() ==> (#[trigger] messages[k]) matches Message::ImageFileOpened(Ok(_)),
        forall|k: int|
            0 <= k < messages.len() ==> update_spec(
                views[k],
                #[trigger] messages[k],
                views[k + 1],
                results[k],
            ),
    ensures
        views.last().layer_names.len() == messages.len(),
        views.last().canvas.layers.len() == messages.len(),
        forall|k: int|
            0 <= k < messages.len() ==> views.last().layer_names[k] == opened_name(
                #[trigger] messages[k],
            ),
{
    let names = messages.map_values(|m: Message| opened_name(m));
    assert forall|k: int| 0 <= k < names.len() implies #[trigger] appended_named(views, names, k) by {
        assert(messages[k] == messages[k]);
        lemma_opened_image_step(views[k], messages[k], views[k + 1], results[k]);
    }
    assert(names.len() == messages.len());
    lemma_appends_named(views, names);
}

} // verus!
