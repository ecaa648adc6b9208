//! The editor: the form's fields and focus, the device list, and what a key
//! press does to them.

use crate::device::{distinct, views, Device, DeviceView, Rgb, Wattage};
use crate::event::{Event, KeyCode, KeyEvent, KeyEventKind};
use crate::focus::Highlighted;
use crate::number::Number;
use crate::textbox::{Textbox, TextboxView};
use vstd::prelude::*;

verus! {

/// What is left to do outside the editor after a key press.
#[derive(Clone, Copy, Debug, PartialEq, Eq, Structural)]
pub enum Request {
    /// Nothing: the editor has done all there was to do.
    Nothing,
    /// Read the three numeric fields and hand them to `App::add_device`.
    AddDevice,
    /// Write what `App::save` returns.
    Save,
    /// Read the saved list and hand it to `App::load_save`.
    LoadSave,
}

/// Why a device was not made from the form.
#[derive(Clone, Copy, Debug, PartialEq, Eq, Structural)]
pub enum SubmitError {
    /// The text of the purchase price is no number.
    InitialCost,
    /// The text of the wattage is no number.
    Wattage,
    /// The text of the electricity rate is no number.
    ElectricityRate,
}

/// What became of a device made from the form.
#[derive(Clone, Copy, Debug, PartialEq, Eq, Structural)]
pub enum Submission {
    /// It stands at the end of the list.
    Added,
    /// The list already held a device with the same economics, and is as it
    /// was.
    Duplicate,
}

/// Why a saved list could not be had.
#[derive(Clone, Copy, Debug, PartialEq, Eq, Structural)]
pub enum LoadError {
    /// The saved list could not be opened or read.
    Unreadable,
    /// What was read is no list of devices.
    Malformed,
}

/// What is to be written on a save: the devices, and the name to write them
/// under.
#[derive(Debug)]
pub struct Save {
    pub list_name: String,
    pub devices: Vec<Device>,
}

/// The directory that saved lists are kept in.
pub const SAVE_DIRECTORY: &'static str = "saves";

/// The state of the editor, over sequences.
pub struct AppView {
    pub devices: Seq<DeviceView>,
    pub exit: bool,
    pub electricity_rate: TextboxView,
    pub initial_cost: TextboxView,
    pub wattage: TextboxView,
    pub name: TextboxView,
    pub list_name: TextboxView,
    pub highlighted: Highlighted,
    pub randomize_graph_colors: bool,
}

impl AppView {
    /// The editor as it starts: no device, empty fields, the focus on the
    /// first field.
    pub open spec fn initial(randomize_graph_colors: bool) -> AppView {
        AppView {
            devices: Seq::empty(),
            exit: false,
            electricity_rate: TextboxView::empty(),
            initial_cost: TextboxView::empty(),
            wattage: TextboxView::empty(),
            name: TextboxView::empty(),
            list_name: TextboxView::empty(),
            highlighted: Highlighted::ElectricityRate,
            randomize_graph_colors,
        }
    }

    /// The text field of a form field.
    pub open spec fn field(self, field: Highlighted) -> TextboxView {
        match field {
            Highlighted::ElectricityRate => self.electricity_rate,
            Highlighted::InitialCost => self.initial_cost,
            Highlighted::Wattage => self.wattage,
            Highlighted::Name => self.name,
            Highlighted::ListName => self.list_name,
        }
    }

    /// The text field that has the focus.
    pub open spec fn focused(self) -> TextboxView {
        self.field(self.highlighted)
    }

    /// The same state with the focused text field replaced.
    pub open spec fn with_focused(self, textbox: TextboxView) -> AppView {
        match self.highlighted {
            Highlighted::ElectricityRate => AppView { electricity_rate: textbox, ..self },
            Highlighted::InitialCost => AppView { initial_cost: textbox, ..self },
            Highlighted::Wattage => AppView { wattage: textbox, ..self },
            Highlighted::Name => AppView { name: textbox, ..self },
            Highlighted::ListName => AppView { list_name: textbox, ..self },
        }
    }

    /// The state after a key press.
    ///
    /// With Control held, `c` ends the session and nothing else changes the
    /// state. Without it, Escape ends the session, Up and Back Tab move the
    /// focus back, Down and Tab move it on, and Left, Right, Backspace and the
    /// character keys edit the focused text field.
    pub open spec fn after_key(self, key: KeyEvent) -> AppView {
        if key.control {
            if key.code == KeyCode::Char('c') {
                AppView { exit: true, ..self }
            } else {
                self
            }
        } else {
            match key.code {
                KeyCode::Esc => AppView { exit: true, ..self },
                KeyCode::Up | KeyCode::BackTab => AppView {
                    highlighted: self.highlighted.previous(),
                    ..self
                },
                KeyCode::Down | KeyCode::Tab => AppView {
                    highlighted: self.highlighted.next(),
                    ..self
                },
                KeyCode::Left => self.with_focused(self.focused().cursor_left()),
                KeyCode::Right => self.with_focused(self.focused().cursor_right()),
                KeyCode::Char(c) => self.with_focused(self.focused().entered(c)),
                KeyCode::Backspace => self.with_focused(self.focused().deleted()),
                KeyCode::Enter | KeyCode::Other => self,
            }
        }
    }

    /// What a key press leaves to do outside the editor: Control with `s`
    /// asks to save and with `l` to load; Enter without Control asks to add
    /// a device.
    pub open spec fn request_of(key: KeyEvent) -> Request {
        if key.control {
            if key.code == KeyCode::Char('s') {
                Request::Save
            } else if key.code == KeyCode::Char('l') {
                Request::LoadSave
            } else {
                Request::Nothing
            }
        } else {
            if key.code == KeyCode::Enter {
                Request::AddDevice
            } else {
                Request::Nothing
            }
        }
    }

    /// The colour of a device where colours are not random.
    pub open spec fn plain_color() -> Rgb {
        Rgb(20, 20, 20)
    }

    /// The first of the three numbers, in the order purchase price, wattage,
    /// electricity rate, that could not be read from its field, if any.
    pub open spec fn rejection(
        initial_cost: Option<Number>,
        average_wattage: Option<Wattage>,
        electricity_rate: Option<Number>,
    ) -> Option<SubmitError> {
        if initial_cost is None {
            Some(SubmitError::InitialCost)
        } else if average_wattage is None {
            Some(SubmitError::Wattage)
        } else if electricity_rate is None {
            Some(SubmitError::ElectricityRate)
        } else {
            None
        }
    }

    /// The device that the form describes: the three numbers, the colour,
    /// and the text of the name field as it stands.
    pub open spec fn candidate(
        self,
        initial_cost: Number,
        average_wattage: Wattage,
        electricity_rate: Number,
        color: Rgb,
    ) -> DeviceView {
        DeviceView {
            initial_cost,
            average_wattage,
            electricity_rate,
            color,
            name: self.name.text,
        }
    }

    /// The state with a device added: at the end of the list, unless the list
    /// holds a device with the same economics; then nothing changes.
    pub open spec fn with_device(self, device: DeviceView) -> AppView {
        if device.duplicated_in(self.devices) {
            self
        } else {
            AppView { devices: self.devices.push(device), ..self }
        }
    }

    /// The state after the form was submitted, and what is reported of it.
    ///
    /// Where one of the numbers is missing, the first missing one is
    /// reported and nothing changes. Else the device that the form describes
    /// is added, and the report says whether the list took it.
    pub open spec fn submitted(
        self,
        initial_cost: Option<Number>,
        average_wattage: Option<Wattage>,
        electricity_rate: Option<Number>,
        color: Rgb,
    ) -> (AppView, Result<Submission, SubmitError>) {
        match AppView::rejection(initial_cost, average_wattage, electricity_rate) {
            Some(error) => (self, Err(error)),
            None => {
                let device = self.candidate(
                    initial_cost.unwrap(),
                    average_wattage.unwrap(),
                    electricity_rate.unwrap(),
                    color,
                );
                (
                    self.with_device(device),
                    Ok(
                        if device.duplicated_in(self.devices) {
                            Submission::Duplicate
                        } else {
                            Submission::Added
                        },
                    ),
                )
            },
        }
    }

    /// The state after a load: the list that was read in place of the old
    /// one, or, where none could be read, the state as it was.
    pub open spec fn loaded(self, devices: Option<Seq<DeviceView>>) -> AppView {
        match devices {
            Some(devices) => AppView { devices, ..self },
            None => self,
        }
    }

    /// The cursor of every text field stands within its text.
    pub open spec fn wf(self) -> bool {
        forall|field: Highlighted| (#[trigger] self.field(field)).wf()
    }

    /// Whether an event is the press of a key. Only those reach the editor.
    pub open spec fn pressed_key(event: Event) -> Option<KeyEvent> {
        match event {
            Event::Key(key) => if key.kind == KeyEventKind::Press {
                Some(key)
            } else {
                None
            },
            Event::Other => None,
        }
    }
}

impl AppView {
    /// A key press changes no text field but the focused one, and neither
    /// the device list nor the choice between random and plain colours.
    pub proof fn lemma_key_reaches_focused_field_only(self, key: KeyEvent, field: Highlighted)
        requires
            field != self.highlighted,
        ensures
            self.after_key(key).field(field) == self.field(field),
            self.after_key(key).devices == self.devices,
            self.after_key(key).randomize_graph_colors == self.randomize_graph_colors,
    {
    }

    /// The cursor of every text field stands within its text when the editor
    /// starts, and stays there under every key press, submission and load.
    pub proof fn lemma_cursors_stay_in_text(
        self,
        key: KeyEvent,
        initial_cost: Option<Number>,
        average_wattage: Option<Wattage>,
        electricity_rate: Option<Number>,
        color: Rgb,
        devices: Option<Seq<DeviceView>>,
    )
        requires
            self.wf(),
        ensures
            AppView::initial(self.randomize_graph_colors).wf(),
            self.after_key(key).wf(),
            self.submitted(initial_cost, average_wattage, electricity_rate, color).0.wf(),
            self.loaded(devices).wf(),
    {
        let start = AppView::initial(self.randomize_graph_colors);
        assert forall|field: Highlighted| (#[trigger] start.field(field)).wf() by {}
        assert forall|field: Highlighted| (#[trigger] self.after_key(key).field(field)).wf() by {
            assert(self.field(field).wf());
            assert(self.focused().wf());
        }
        let submitted = self.submitted(initial_cost, average_wattage, electricity_rate, color).0;
        assert forall|field: Highlighted| (#[trigger] submitted.field(field)).wf() by {
            assert(self.field(field).wf());
        }
        assert forall|field: Highlighted| (#[trigger] self.loaded(devices).field(field)).wf() by {
            assert(self.field(field).wf());
        }
    }

    /// Submitting a device whose economics the list already holds changes
    /// nothing: the list, and with it its length, is as it was, and the
    /// device is reported as a duplicate.
    pub proof fn lemma_duplicate_submission_changes_nothing(
        self,
        initial_cost: Number,
        average_wattage: Wattage,
        electricity_rate: Number,
        color: Rgb,
    )
        requires
            self.candidate(initial_cost, average_wattage, electricity_rate, color).duplicated_in(
                self.devices,
            ),
        ensures
            self.submitted(Some(initial_cost), Some(average_wattage), Some(electricity_rate), color)
                == (self, Ok::<Submission, SubmitError>(Submission::Duplicate)),
            self.submitted(
                Some(initial_cost),
                Some(average_wattage),
                Some(electricity_rate),
                color,
            ).0.devices.len() == self.devices.len(),
    {
    }

    /// Submitting a device whose economics the list does not hold yet puts
    /// exactly that device at the end of the list, leaves every device
    /// before it in its place, and changes nothing else.
    pub proof fn lemma_new_submission_is_appended(
        self,
        initial_cost: Number,
        average_wattage: Wattage,
        electricity_rate: Number,
        color: Rgb,
    )
        requires
            !self.candidate(initial_cost, average_wattage, electricity_rate, color).duplicated_in(
                self.devices,
            ),
        ensures
            ({
                let device = self.candidate(initial_cost, average_wattage, electricity_rate, color);
                let (after, report) = self.submitted(
                    Some(initial_cost),
                    Some(average_wattage),
                    Some(electricity_rate),
                    color,
                );
                &&& report == Ok::<Submission, SubmitError>(Submission::Added)
                &&& after == (AppView { devices: self.devices.push(device), ..self })
                &&& after.devices.len() == self.devices.len() + 1
                &&& after.devices.last() == device
                &&& after.devices.drop_last() == self.devices
                &&& forall|i: int|
                    0 <= i < self.devices.len() ==> #[trigger] after.devices[i] == self.devices[i]
            }),
    {
        let device = self.candidate(initial_cost, average_wattage, electricity_rate, color);
        assert(self.devices.push(device).drop_last() =~= self.devices);
    }

    /// A submission in which one of the three numbers is missing changes
    /// nothing and reports the first that is missing.
    pub proof fn lemma_rejected_submission_changes_nothing(
        self,
        initial_cost: Option<Number>,
        average_wattage: Option<Wattage>,
        electricity_rate: Option<Number>,
        color: Rgb,
    )
        requires
            initial_cost is None || average_wattage is None || electricity_rate is None,
        ensures
            self.submitted(initial_cost, average_wattage, electricity_rate, color).0 == self,
            self.submitted(initial_cost, average_wattage, electricity_rate, color).1
                == Err::<Submission, SubmitError>(
                if initial_cost is None {
                    SubmitError::InitialCost
                } else if average_wattage is None {
                    SubmitError::Wattage
                } else {
                    SubmitError::ElectricityRate
                },
            ),
    {
    }

    /// A submission changes nothing but the device list: the text fields,
    /// the focus, the exit flag and the choice of colours stay.
    pub proof fn lemma_submission_keeps_form(
        self,
        initial_cost: Option<Number>,
        average_wattage: Option<Wattage>,
        electricity_rate: Option<Number>,
        color: Rgb,
    )
        ensures
            ({
                let after = self.submitted(
                    initial_cost,
                    average_wattage,
                    electricity_rate,
                    color,
                ).0;
                after == (AppView { devices: after.devices, ..self })
            }),
    {
    }

    /// A list in which no two devices have the same economics stays such a
    /// list under every submission.
    pub proof fn lemma_submission_keeps_devices_distinct(
        self,
        initial_cost: Option<Number>,
        average_wattage: Option<Wattage>,
        electricity_rate: Option<Number>,
        color: Rgb,
    )
        requires
            distinct(self.devices),
        ensures
            distinct(
                self.submitted(initial_cost, average_wattage, electricity_rate, color).0.devices,
            ),
    {
        let after = self.submitted(
            initial_cost,
            average_wattage,
            electricity_rate,
            color,
        ).0.devices;
        if after != self.devices {
            let device = self.candidate(
                initial_cost.unwrap(),
                average_wattage.unwrap(),
                electricity_rate.unwrap(),
                color,
            );
            assert(after == self.devices.push(device));
            assert forall|i: int, j: int|
                0 <= i < after.len() && 0 <= j < after.len() && i != j implies !(
            #[trigger] after[i]).same_economics(#[trigger] after[j]) by {
                if i < self.devices.len() && j < self.devices.len() {
                    assert(!self.devices[i].same_economics(self.devices[j]));
                } else if i < self.devices.len() {
                    assert(!self.devices[i].same_economics(device));
                } else {
                    assert(!self.devices[j].same_economics(device));
                }
            }
        }
    }

    /// After a submission of three numbers, none of them not a number, the
    /// list holds a device with these economics, so that submitting them
    /// again, under whatever colour, is reported as a duplicate.
    pub proof fn lemma_second_submission_is_duplicate(
        self,
        initial_cost: Number,
        average_wattage: Wattage,
        electricity_rate: Number,
        color: Rgb,
        second_color: Rgb,
    )
        requires
            !initial_cost.is_nan(),
            !average_wattage.watts.is_nan(),
            !average_wattage.kilowatts.is_nan(),
            !electricity_rate.is_nan(),
        ensures
            ({
                let after = self.submitted(
                    Some(initial_cost),
                    Some(average_wattage),
                    Some(electricity_rate),
                    color,
                ).0;
                after.submitted(
                    Some(initial_cost),
                    Some(average_wattage),
                    Some(electricity_rate),
                    second_color,
                ) == (after, Ok::<Submission, SubmitError>(Submission::Duplicate))
            }),
    {
        let device = self.candidate(initial_cost, average_wattage, electricity_rate, color);
        let after = self.submitted(
            Some(initial_cost),
            Some(average_wattage),
            Some(electricity_rate),
            color,
        ).0;
        let second = after.candidate(
            initial_cost,
            average_wattage,
            electricity_rate,
            second_color,
        );
        if device.duplicated_in(self.devices) {
            let i = choose|i: int|
                0 <= i < self.devices.len() && (#[trigger] self.devices[i]).same_economics(device);
            assert(after.devices[i].same_economics(second));
        } else {
            let last = after.devices.len() - 1;
            assert(after.devices[last] == device);
            assert(after.devices[last].same_economics(second));
        }
    }

    /// Loading what was just saved gives back the very same state, device
    /// for device and field for field; a load that read nothing changes
    /// nothing; and a load that read a list leaves exactly that list.
    pub proof fn lemma_load_laws(self, devices: Seq<DeviceView>)
        ensures
            self.loaded(Some(self.devices)) == self,
            self.loaded(None) == self,
            self.loaded(Some(devices)).devices == devices,
            self.loaded(Some(devices)) == (AppView { devices, ..self }),
    {
    }
}

/// Draws a device colour: calls `rand::rng` for the thread's generator and
/// `Rng::random` on it three times, once for each of red, green and blue.
/// Any colour may come back, and nothing is claimed of which.
#[verifier::external_body]
fn random_color() -> (color: Rgb) {
    let mut rng = rand::rng();
    Rgb(
        rand::Rng::random(&mut rng),
        rand::Rng::random(&mut rng),
        rand::Rng::random(&mut rng),
    )
}

/// The editor.
pub struct App {
    devices: Vec<Device>,
    exit: bool,
    electricity_rate: Textbox,
    initial_cost: Textbox,
    wattage: Textbox,
    name: Textbox,
    list_name: Textbox,
    highlighted: Highlighted,
    randomize_graph_colors: bool,
}

impl View for App {
    type V = AppView;

    closed spec fn view(&self) -> AppView {
        AppView {
            devices: views(self.devices@),
            exit: self.exit,
            electricity_rate: self.electricity_rate@,
            initial_cost: self.initial_cost@,
            wattage: self.wattage@,
            name: self.name@,
            list_name: self.list_name@,
            highlighted: self.highlighted,
            randomize_graph_colors: self.randomize_graph_colors,
        }
    }
}

impl Default for App {
    /// The editor as it starts, with random device colours.
    fn default() -> (app: Self)
        ensures
            app@ == AppView::initial(true),
    {
        App::new(true)
    }
}

impl App {
    /// The editor as it starts. With `randomize_graph_colors` each new
    /// device gets a random colour, without it a fixed one.
    pub fn new(randomize_graph_colors: bool) -> (app: Self)
        ensures
            app@ == AppView::initial(randomize_graph_colors),
    {
        let app = App {
            devices: Vec::new(),
            exit: false,
            electricity_rate: Textbox::new(),
            initial_cost: Textbox::new(),
            wattage: Textbox::new(),
            name: Textbox::new(),
            list_name: Textbox::new(),
            highlighted: Highlighted::first(),
            randomize_graph_colors,
        };
        assert(app@.devices =~= Seq::empty());
        app
    }

    /// The devices, in the order in which they were added.
    pub fn devices(&self) -> (devices: &Vec<Device>)
        ensures
            views(devices@) == self@.devices,
    {
        &self.devices
    }

    /// Whether the session has been ended.
    pub fn should_exit(&self) -> (exit: bool)
        ensures
            exit == self@.exit,
    {
        self.exit
    }

    /// The field that has the focus.
    pub fn highlighted(&self) -> (field: Highlighted)
        ensures
            field == self@.highlighted,
    {
        self.highlighted
    }

    /// Whether new devices get random colours.
    pub fn randomize_graph_colors(&self) -> (randomize: bool)
        ensures
            randomize == self@.randomize_graph_colors,
    {
        self.randomize_graph_colors
    }

    /// The text field of a form field.
    pub fn textbox(&self, field: Highlighted) -> (textbox: &Textbox)
        ensures
            textbox@ == self@.field(field),
    {
        match field {
            Highlighted::ElectricityRate => &self.electricity_rate,
            Highlighted::InitialCost => &self.initial_cost,
            Highlighted::Wattage => &self.wattage,
            Highlighted::Name => &self.name,
            Highlighted::ListName => &self.list_name,
        }
    }

    fn focused_mut(&mut self) -> (textbox: &mut Textbox)
        ensures
            *textbox == old(self).textbox_of(old(self).highlighted),
            final(self)@ == old(self)@.with_focused(final(textbox)@),
    {
        match self.highlighted {
            Highlighted::ElectricityRate => &mut self.electricity_rate,
            Highlighted::InitialCost => &mut self.initial_cost,
            Highlighted::Wattage => &mut self.wattage,
            Highlighted::Name => &mut self.name,
            Highlighted::ListName => &mut self.list_name,
        }
    }

    spec fn textbox_of(&self, field: Highlighted) -> Textbox {
        match field {
            Highlighted::ElectricityRate => self.electricity_rate,
            Highlighted::InitialCost => self.initial_cost,
            Highlighted::Wattage => self.wattage,
            Highlighted::Name => self.name,
            Highlighted::ListName => self.list_name,
        }
    }

    /// Ends the session: the run loop stops before it waits for the next
    /// event.
    pub fn exit(&mut self)
        ensures
            final(self)@ == (AppView { exit: true, ..old(self)@ }),
    {
        self.exit = true;
    }

    /// Applies a key press to the editor and says what is left to do outside
    /// it.
    pub fn handle_key_event(&mut self, key: KeyEvent) -> (request: Request)
        ensures
            final(self)@ == old(self)@.after_key(key),
            request == AppView::request_of(key),
    {
        if key.control {
            match key.code {
                KeyCode::Char(c) => {
                    if c == 'c' {
                        self.exit();
                        Request::Nothing
                    } else if c == 's' {
                        Request::Save
                    } else if c == 'l' {
                        Request::LoadSave
                    } else {
                        Request::Nothing
                    }
                },
                _ => Request::Nothing,
            }
        } else {
            match key.code {
                KeyCode::Esc => {
                    self.exit();
                    Request::Nothing
                },
                KeyCode::Up | KeyCode::BackTab => {
                    self.highlighted = self.highlighted.up();
                    Request::Nothing
                },
                KeyCode::Down | KeyCode::Tab => {
                    self.highlighted = self.highlighted.down();
                    Request::Nothing
                },
                KeyCode::Left => {
                    self.focused_mut().move_cursor_left();
                    Request::Nothing
                },
                KeyCode::Right => {
                    self.focused_mut().move_cursor_right();
                    Request::Nothing
                },
                KeyCode::Char(c) => {
                    self.focused_mut().enter_char(c);
                    Request::Nothing
                },
                KeyCode::Backspace => {
                    self.focused_mut().delete_char();
                    Request::Nothing
                },
                KeyCode::Enter => Request::AddDevice,
                KeyCode::Other => Request::Nothing,
            }
        }
    }

    /// Applies an input event to the editor: the press of a key as
    /// `handle_key_event` does, anything else not at all.
    pub fn handle_events(&mut self, event: Event) -> (request: Request)
        ensures
            match AppView::pressed_key(event) {
                Some(key) => final(self)@ == old(self)@.after_key(key) && request
                    == AppView::request_of(key),
                None => final(self)@ == old(self)@ && request == Request::Nothing,
            },
    {
        match event {
            Event::Key(key) => {
                match key.kind {
                    KeyEventKind::Press => self.handle_key_event(key),
                    _ => Request::Nothing,
                }
            },
            Event::Other => Request::Nothing,
        }
    }
    fn contains(&self, device: &Device) -> (found: bool)
        ensures
            found == device@.duplicated_in(self@.devices),
    {
        let mut i: usize = 0;
        while i < self.devices.len()
            invariant
                i <= self.devices.len(),
                forall|j: int|
                    0 <= j < i ==> !(#[trigger] views(self.devices@)[j]).same_economics(device@),
            decreases self.devices.len() - i,
        {
            if self.devices[i] == *device {
                assert(views(self.devices@)[i as int].same_economics(device@));
                return true;
            }
            i = i + 1;
        }
        false
    }

    /// Makes a device from the three numbers, the given colour and the text
    /// of the name field, and adds it to the list unless the list holds a
    /// device with the same economics. A number that could not be read from
    /// its field is handed in as `None`; the first such is reported, and
    /// nothing changes. The text fields stay as they are in every case.
    pub fn add_device_with_color(
        &mut self,
        initial_cost: Option<Number>,
        average_wattage: Option<Wattage>,
        electricity_rate: Option<Number>,
        color: Rgb,
    ) -> (result: Result<Submission, SubmitError>)
        ensures
            (final(self)@, result) == old(self)@.submitted(
                initial_cost,
                average_wattage,
                electricity_rate,
                color,
            ),
    {
        let initial_cost = match initial_cost {
            Some(number) => number,
            None => { return Err(SubmitError::InitialCost); },
        };
        let average_wattage = match average_wattage {
            Some(wattage) => wattage,
            None => { return Err(SubmitError::Wattage); },
        };
        let electricity_rate = match electricity_rate {
            Some(number) => number,
            None => { return Err(SubmitError::ElectricityRate); },
        };
        let name = String::from_str(self.name.input());
        let device = Device { initial_cost, average_wattage, electricity_rate, color, name };
        if self.contains(&device) {
            Ok(Submission::Duplicate)
        } else {
            self.devices.push(device);
            assert(final(self)@.devices =~= old(self)@.devices.push(device@));
            Ok(Submission::Added)
        }
    }

    /// Submits the form as `add_device_with_color` does, with the colour
    /// that the editor picks: a random one where colours are random, the
    /// plain one where they are not.
    pub fn add_device(
        &mut self,
        initial_cost: Option<Number>,
        average_wattage: Option<Wattage>,
        electricity_rate: Option<Number>,
    ) -> (result: Result<Submission, SubmitError>)
        ensures
            exists|color: Rgb|
                (old(self)@.randomize_graph_colors || color == AppView::plain_color()) && (
                final(self)@,
                result,
            ) == #[trigger] old(self)@.submitted(
                    initial_cost,
                    average_wattage,
                    electricity_rate,
                    color,
                ),
    {
        let color = if self.randomize_graph_colors {
            random_color()
        } else {
            Rgb(20, 20, 20)
        };
        self.add_device_with_color(initial_cost, average_wattage, electricity_rate, color)
    }

    /// What is to be written on a save: a copy of the devices, in order, and
    /// the text of the list-name field to name the file by. The editor does
    /// not change.
    pub fn save(&self) -> (save: Save)
        ensures
            save.list_name@ == self@.list_name.text,
            views(save.devices@) == self@.devices,
    {
        let mut devices: Vec<Device> = Vec::new();
        let mut i: usize = 0;
        while i < self.devices.len()
            invariant
                i <= self.devices.len(),
                devices@ == self.devices@.take(i as int),
            decreases self.devices.len() - i,
        {
            devices.push(self.devices[i].clone());
            assert(devices@ =~= self.devices@.take(i + 1));
            i = i + 1;
        }
        assert(devices@ =~= self.devices@);
        Save { list_name: String::from_str(self.list_name.input()), devices }
    }

    /// Takes what a load has read. A list that was read replaces the devices
    /// wholesale; where none could be read, the editor stays as it is and the
    /// reason is handed back.
    pub fn load_save(&mut self, loaded: Result<Vec<Device>, LoadError>) -> (result: Result<
        (),
        LoadError,
    >)
        ensures
            match loaded {
                Ok(devices) => result is Ok && final(self)@ == old(self)@.loaded(
                    Some(views(devices@)),
                ),
                Err(error) => result == Err::<(), LoadError>(error) && final(self)@ == old(
                    self,
                )@.loaded(None),
            },
    {
        match loaded {
            Ok(devices) => {
                self.devices = devices;
                Ok(())
            },
            Err(error) => Err(error),
        }
    }
}

} // verus!
