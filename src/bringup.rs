//! Staged peripheral bring-up. Each stage owns what is enabled so far and
//! is consumed by its one transition, which enables the next batch of
//! handles and returns the next stage. The last stage yields the device.
use vstd::prelude::*;
use crate::board::{boot_mount, StorageError, Store};
use crate::status::{Diagnostic, StatusReport};
use crate::storage::RegionModel;
use crate::transport::{Iso14443, Transport, TransportModel, UsbClasses};

verus! {

/// The peripherals the pipeline brings up.
#[derive(Clone, Copy, Debug, PartialEq, Eq, Structural)]
pub enum Peripheral {
    Syscon,
    Pmc,
    Anactrl,
    Iocon,
    Gpio,
    Adc,
    Ctimer0,
    Ctimer1,
    Ctimer2,
    Ctimer3,
    Ctimer4,
    Pfr,
    Flexcomm0,
    Flexcomm5,
    InputMux,
    Pint,
    Rng,
    Prince,
    Flash,
    Rtc,
    Usbhs,
}

/// A raw handle to one peripheral that has not been configured. It is moved,
/// never copied: enabling consumes it.
pub struct Unconfigured {
    kind: Peripheral,
    faulty: bool,
}

impl Unconfigured {
    pub closed spec fn kind(&self) -> Peripheral {
        self.kind
    }

    /// The hardware reports a fault when this peripheral is enabled.
    pub closed spec fn faulty(&self) -> bool {
        self.faulty
    }

    /// The handle of `kind`; `faulty` is what its hardware reports on enable.
    pub fn new(kind: Peripheral, faulty: bool) -> (r: Unconfigured)
        ensures
            r.kind() == kind,
            r.faulty() == faulty,
    {
        Unconfigured { kind, faulty }
    }
}

/// An enabled peripheral. Only enabling an `Unconfigured` handle makes one.
pub struct Enabled {
    kind: Peripheral,
}

impl Enabled {
    pub closed spec fn kind(&self) -> Peripheral {
        self.kind
    }

    pub fn peripheral(&self) -> (r: Peripheral)
        ensures
            r == self.kind(),
    {
        self.kind
    }
}

/// Why bring-up stopped.
#[derive(Clone, Copy, Debug, PartialEq, Eq, Structural)]
pub enum BringupError {
    /// Enabling this peripheral reported a hardware fault.
    Hardware(Peripheral),
    /// The internal filesystem could not be mounted nor recovered.
    Storage(StorageError),
}

pub open spec fn no_fault(hs: Seq<Unconfigured>) -> bool {
    forall|i: int| 0 <= i < hs.len() ==> !(#[trigger] hs[i]).faulty()
}

/// The first handle of `hs` whose hardware reports a fault.
pub open spec fn first_fault(hs: Seq<Unconfigured>) -> Option<Peripheral>
    decreases hs.len(),
{
    if hs.len() == 0 {
        None
    } else if hs[0].faulty() {
        Some(hs[0].kind())
    } else {
        first_fault(hs.drop_first())
    }
}

pub open spec fn kinds_of(hs: Seq<Unconfigured>) -> Seq<Peripheral> {
    hs.map_values(|h: Unconfigured| h.kind())
}

pub open spec fn enabled_kinds(es: Seq<Enabled>) -> Seq<Peripheral> {
    es.map_values(|e: Enabled| e.kind())
}

proof fn lemma_kinds_remove(es: Seq<Enabled>, i: int)
    requires
        0 <= i < es.len(),
    ensures
        enabled_kinds(es.remove(i)) == enabled_kinds(es).remove(i),
{
    assert(enabled_kinds(es.remove(i)) =~= enabled_kinds(es).remove(i));
}

proof fn lemma_first_fault(hs: Seq<Unconfigured>)
    ensures
        first_fault(hs) is None <==> no_fault(hs),
    decreases hs.len(),
{
    if hs.len() > 0 {
        lemma_first_fault(hs.drop_first());
        if !hs[0].faulty() && no_fault(hs.drop_first()) {
            assert forall|i: int| 0 <= i < hs.len() implies !(#[trigger] hs[i]).faulty() by {
                if i > 0 {
                    assert(hs[i] == hs.drop_first()[i - 1]);
                }
            }
        }
        if no_fault(hs) {
            assert(!hs[0].faulty());
            assert forall|i: int| 0 <= i < hs.len() - 1 implies !(
            #[trigger] hs.drop_first()[i]).faulty() by {
                assert(hs.drop_first()[i] == hs[i + 1]);
            }
        }
    }
}

/// Enables each handle of `hs` in order, appending it to `enabled`; stops at
/// the first fault.
fn enable_all(enabled: &mut Vec<Enabled>, handles: Vec<Unconfigured>) -> (r: Result<
    (),
    BringupError,
>)
    ensures
        r is Ok <==> no_fault(handles@),
        r is Ok ==> enabled_kinds(final(enabled)@) == enabled_kinds(old(enabled)@) + kinds_of(
            handles@,
        ),
        r is Err ==> r == Err::<(), BringupError>(
            BringupError::Hardware(first_fault(handles@).unwrap()),
        ),
{
    proof {
        lemma_first_fault(handles@);
    }
    let ghost all = handles@;
    let total: usize = handles.len();
    let mut hs = handles;
    let mut i: usize = 0;
    let ghost start = enabled@;
    assert(all.skip(0) =~= all);
    assert(all.take(0) =~= Seq::<Unconfigured>::empty());
    while hs.len() > 0
        invariant
            i + hs@.len() == all.len(),
            hs@ == all.skip(i as int),
            no_fault(all.take(i as int)),
            enabled_kinds(enabled@) == enabled_kinds(start) + kinds_of(all.take(i as int)),
            first_fault(all) == first_fault(hs@),
            all.len() == total,
            all == handles@,
        decreases hs@.len(),
    {
        let ghost before = hs@;
        let ghost prev = enabled@;
        let h = hs.remove(0);
        proof {
            assert(h == before[0]);
            assert(hs@ =~= all.skip(i as int).drop_first());
            assert(all.skip(i as int + 1) =~= all.skip(i as int).drop_first());
        }
        if h.faulty {
            proof {
                lemma_first_fault(all);
                assert(!no_fault(all)) by {
                    assert(all[i as int] == before[0]);
                }
                assert(first_fault(before) == Some(h.kind));
            }
            return Err(BringupError::Hardware(h.kind));
        }
        enabled.push(Enabled { kind: h.kind });
        proof {
            assert(all.take(i as int + 1) =~= all.take(i as int).push(h));
            assert(kinds_of(all.take(i as int + 1)) =~= kinds_of(all.take(i as int)).push(h.kind));
            assert(enabled_kinds(enabled@) =~= enabled_kinds(prev).push(h.kind));
        }
        i = i + 1;
    }
    proof {
        assert(all.take(i as int) =~= all);
    }
    Ok(())
}

/// Build choices the pipeline follows.
#[derive(Clone, Copy, Debug, PartialEq, Eq, Structural)]
pub struct Config {
    /// Minimum secure firmware version to check against the protected flash
    /// region, if any.
    pub secure_firmware_version: Option<u32>,
    /// Storage is encrypted: the flash encryption engine must be activated.
    pub require_prince: bool,
    /// On a failed protected-flash check, reboot into the ROM bootloader.
    pub boot_to_bootrom: bool,
}

pub open spec fn opt_view(t: Option<Transport>) -> Option<TransportModel> {
    match t {
        Some(t) => Some(t@),
        None => None,
    }
}

/// The RGB LED, driven by its PWM timer.
pub struct RgbLed {
    timer: Enabled,
}

/// The three touch buttons, sampled by their timer.
pub struct ThreeButtons {
    timer: Enabled,
}

/// The clock controller, which measures the supply through the ADC to pick
/// the core clock.
pub struct DynamicClockController {
    adc: Enabled,
}

impl RgbLed {
    pub closed spec fn kind(&self) -> Peripheral {
        self.timer.kind()
    }

    pub fn peripheral(&self) -> (r: Peripheral)
        ensures
            r == self.kind(),
    {
        self.timer.peripheral()
    }
}

impl ThreeButtons {
    pub closed spec fn kind(&self) -> Peripheral {
        self.timer.kind()
    }

    pub fn peripheral(&self) -> (r: Peripheral)
        ensures
            r == self.kind(),
    {
        self.timer.peripheral()
    }
}

impl DynamicClockController {
    pub closed spec fn kind(&self) -> Peripheral {
        self.adc.kind()
    }

    pub fn peripheral(&self) -> (r: Peripheral)
        ensures
            r == self.kind(),
    {
        self.adc.peripheral()
    }
}

/// User-interface handles and the clock controller, set aside once their
/// peripherals are enabled.
pub struct Ui {
    pub rgb: RgbLed,
    pub buttons: ThreeButtons,
    pub clock_controller: DynamicClockController,
}

impl Ui {
    pub open spec fn wf(&self) -> bool {
        &&& self.rgb.kind() == Peripheral::Ctimer3
        &&& self.buttons.kind() == Peripheral::Ctimer1
        &&& self.clock_controller.kind() == Peripheral::Adc
    }
}

/// What every stage carries: the status report and the enabled handles.
struct Progress {
    status: StatusReport,
    enabled: Vec<Enabled>,
}

/// Bring-up after the core clock and power management are enabled.
pub struct Stage0 {
    progress: Progress,
}

/// Bring-up after GPIO and pin multiplexing are enabled.
pub struct Stage1 {
    progress: Progress,
}

/// Bring-up after timers, ADC and the protected flash region are enabled.
pub struct Stage2 {
    progress: Progress,
    config: Config,
    ui: Ui,
}

/// Bring-up after the communication peripherals and the NFC front-end.
pub struct Stage3 {
    progress: Progress,
    config: Config,
    ui: Ui,
    nfc: Option<Iso14443>,
}

/// Bring-up after the RNG, flash encryption engine and flash controller.
pub struct Stage4 {
    progress: Progress,
    config: Config,
    ui: Ui,
    nfc: Option<Iso14443>,
}

/// Bring-up after flash encryption hardening has been decided.
pub struct Stage5 {
    progress: Progress,
    config: Config,
    ui: Ui,
    nfc: Option<Iso14443>,
    prince_active: bool,
}

/// Bring-up after the real-time clock is enabled and storage is mounted.
pub struct Stage6 {
    progress: Progress,
    config: Config,
    ui: Ui,
    nfc: Option<Iso14443>,
    prince_active: bool,
    store: Store,
}

/// The device, once bring-up has completed.
pub struct All {
    pub status: StatusReport,
    pub store: Store,
    pub nfc: Option<Iso14443>,
    pub usb_classes: Option<UsbClasses>,
    pub peripherals: Vec<Enabled>,
    pub prince_active: bool,
    pub rgb: RgbLed,
    pub buttons: ThreeButtons,
    pub clock_controller: DynamicClockController,
}

impl Stage0 {
    pub closed spec fn kinds(&self) -> Seq<Peripheral> {
        enabled_kinds(self.progress.enabled@)
    }

    pub closed spec fn status(&self) -> Seq<Diagnostic> {
        self.progress.status@
    }

    /// Enables GPIO and pin multiplexing.
    pub fn next(self, iocon: Unconfigured, gpio: Unconfigured) -> (r: Result<Stage1, BringupError>)
        requires
            iocon.kind() == Peripheral::Iocon,
            gpio.kind() == Peripheral::Gpio,
        ensures
            r is Ok <==> no_fault(seq![iocon, gpio]),
            r is Err ==> r->Err_0 == BringupError::Hardware(first_fault(seq![iocon, gpio]).unwrap()),
            r matches Ok(s) ==> s.kinds() == self.kinds() + seq![Peripheral::Iocon, Peripheral::Gpio]
                && s.status() == self.status(),
    {
        let mut progress = self.progress;
        let hs = vec![iocon, gpio];
        let ghost v = hs@;
        proof {
            assert(kinds_of(v) =~= seq![Peripheral::Iocon, Peripheral::Gpio]);
        }
        match enable_all(&mut progress.enabled, hs) {
            Ok(()) => Ok(Stage1 { progress }),
            Err(e) => Err(e),
        }
    }
}

impl Stage1 {
    pub closed spec fn kinds(&self) -> Seq<Peripheral> {
        enabled_kinds(self.progress.enabled@)
    }

    pub closed spec fn status(&self) -> Seq<Diagnostic> {
        self.progress.status@
    }

    /// Enables the ADC, the five timers and the protected flash region, and
    /// fixes the build choices for the stages that follow.
    pub fn next(
        self,
        adc: Unconfigured,
        ctimer0: Unconfigured,
        ctimer1: Unconfigured,
        ctimer2: Unconfigured,
        ctimer3: Unconfigured,
        ctimer4: Unconfigured,
        pfr: Unconfigured,
        secure_firmware_version: Option<u32>,
        require_prince: bool,
        boot_to_bootrom: bool,
    ) -> (r: Result<Stage2, BringupError>)
        requires
            adc.kind() == Peripheral::Adc,
            ctimer0.kind() == Peripheral::Ctimer0,
            ctimer1.kind() == Peripheral::Ctimer1,
            ctimer2.kind() == Peripheral::Ctimer2,
            ctimer3.kind() == Peripheral::Ctimer3,
            ctimer4.kind() == Peripheral::Ctimer4,
            pfr.kind() == Peripheral::Pfr,
        ensures
            r is Ok <==> no_fault(seq![adc, ctimer0, ctimer1, ctimer2, ctimer3, ctimer4, pfr]),
            r is Err ==> r->Err_0 == BringupError::Hardware(
                first_fault(seq![adc, ctimer0, ctimer1, ctimer2, ctimer3, ctimer4, pfr]).unwrap(),
            ),
            r matches Ok(s) ==> s.ui().wf(),
            r matches Ok(s) ==> s.kinds() == self.kinds() + seq![
                Peripheral::Ctimer0,
                Peripheral::Ctimer2,
                Peripheral::Ctimer4,
                Peripheral::Pfr,
            ] && s.status() == self.status() && s.config() == (Config {
                secure_firmware_version,
                require_prince,
                boot_to_bootrom,
            }),
    {
        let mut progress = self.progress;
        let hs = vec![adc, ctimer0, ctimer1, ctimer2, ctimer3, ctimer4, pfr];
        let ghost v = hs@;
        proof {
            assert(kinds_of(v) =~= seq![
                Peripheral::Adc,
                Peripheral::Ctimer0,
                Peripheral::Ctimer1,
                Peripheral::Ctimer2,
                Peripheral::Ctimer3,
                Peripheral::Ctimer4,
                Peripheral::Pfr,
            ]);
        }
        let ghost k0 = enabled_kinds(progress.enabled@);
        match enable_all(&mut progress.enabled, hs) {
            Ok(()) => {},
            Err(e) => {
                return Err(e);
            },
        }
        let ghost e0 = progress.enabled@;
        proof {
            assert(enabled_kinds(e0).len() == e0.len());
            assert(enabled_kinds(e0) == k0 + kinds_of(v));
        }
        let m: usize = progress.enabled.len();
        let rgb_timer = progress.enabled.remove(m - 3);
        let buttons_timer = progress.enabled.remove(m - 5);
        let adc_enabled = progress.enabled.remove(m - 7);
        proof {
            assert(enabled_kinds(e0)[m - 3] == e0[m - 3].kind());
            assert(enabled_kinds(e0)[m - 5] == e0[m - 5].kind());
            assert(enabled_kinds(e0)[m - 7] == e0[m - 7].kind());
            let e1 = e0.remove(m - 3);
            let e2 = e1.remove(m - 5);
            lemma_kinds_remove(e0, m - 3);
            lemma_kinds_remove(e1, m - 5);
            lemma_kinds_remove(e2, m - 7);
            let full = k0 + seq![
                Peripheral::Adc,
                Peripheral::Ctimer0,
                Peripheral::Ctimer1,
                Peripheral::Ctimer2,
                Peripheral::Ctimer3,
                Peripheral::Ctimer4,
                Peripheral::Pfr,
            ];
            assert(enabled_kinds(e0) == full);
            assert(full.remove(m - 3).remove(m - 5).remove(m - 7) =~= k0 + seq![
                Peripheral::Ctimer0,
                Peripheral::Ctimer2,
                Peripheral::Ctimer4,
                Peripheral::Pfr,
            ]);
        }
        let ui = Ui {
            rgb: RgbLed { timer: rgb_timer },
            buttons: ThreeButtons { timer: buttons_timer },
            clock_controller: DynamicClockController { adc: adc_enabled },
        };
        Ok(
            Stage2 {
                progress,
                config: Config { secure_firmware_version, require_prince, boot_to_bootrom },
                ui,
            },
        )
    }
}

impl Stage2 {
    pub closed spec fn kinds(&self) -> Seq<Peripheral> {
        enabled_kinds(self.progress.enabled@)
    }

    pub closed spec fn status(&self) -> Seq<Diagnostic> {
        self.progress.status@
    }

    pub closed spec fn config(&self) -> Config {
        self.config
    }

    pub closed spec fn ui(&self) -> Ui {
        self.ui
    }

    /// Enables the first flexcomm as the SPI bus of the NFC front-end.
    fn setup_spi(&mut self, flexcomm0: Unconfigured) -> (r: Result<(), BringupError>)
        requires
            flexcomm0.kind() == Peripheral::Flexcomm0,
        ensures
            r is Ok <==> !flexcomm0.faulty(),
            r is Err ==> r->Err_0 == BringupError::Hardware(Peripheral::Flexcomm0),
            r is Ok ==> final(self).kinds() == old(self).kinds().push(Peripheral::Flexcomm0),
            final(self).status() == old(self).status(),
            final(self).config() == old(self).config(),
            final(self).ui() == old(self).ui(),
    {
        let hs = vec![flexcomm0];
        let ghost v = hs@;
        proof {
            assert(kinds_of(v) =~= seq![Peripheral::Flexcomm0]);
            if !no_fault(v) {
                assert(v[0].faulty());
            }
        }
        enable_all(&mut self.progress.enabled, hs)
    }

    /// Routes the front-end's interrupt pin through the input multiplexer
    /// (enabled only while it is configured) to the pin-interrupt block, then
    /// probes the front-end over the bus. A front-end that does not answer is
    /// recorded as absent; the transceiver slot stays empty.
    fn setup_fm11nc08(&mut self, mux: Unconfigured, pint: Unconfigured, responds: bool) -> (r: Result<
        Option<Iso14443>,
        BringupError,
    >)
        requires
            mux.kind() == Peripheral::InputMux,
            pint.kind() == Peripheral::Pint,
        ensures
            r is Ok <==> no_fault(seq![mux, pint]),
            r is Err ==> r->Err_0 == BringupError::Hardware(first_fault(seq![mux, pint]).unwrap()),
            r is Ok ==> final(self).kinds() == old(self).kinds().push(Peripheral::Pint),
            r matches Ok(t) ==> (t is Some <==> responds),
            r matches Ok(t) ==> (t matches Some(t) ==> t@ == (TransportModel {
                fifo: Seq::empty(),
                buffer: Seq::empty(),
                outgoing: Seq::empty(),
            })),
            r is Ok ==> final(self).status() == if responds {
                old(self).status()
            } else {
                old(self).status().push(Diagnostic::NfcAbsent)
            },
            final(self).config() == old(self).config(),
            final(self).ui() == old(self).ui(),
    {
        let mut mux_scratch: Vec<Enabled> = Vec::new();
        let m = vec![mux];
        let ghost mv = m@;
        let p = vec![pint];
        let ghost pv = p@;
        proof {
            assert(kinds_of(pv) =~= seq![Peripheral::Pint]);
            assert(seq![mv[0], pv[0]].drop_first() =~= pv);
            assert(no_fault(seq![mv[0], pv[0]]) <==> no_fault(mv) && no_fault(pv)) by {
                assert(seq![mv[0], pv[0]][0] == mv[0]);
                assert(seq![mv[0], pv[0]][1] == pv[0]);
            }
        }
        match enable_all(&mut mux_scratch, m) {
            Ok(()) => {},
            Err(e) => {
                return Err(e);
            },
        }
        match enable_all(&mut self.progress.enabled, p) {
            Ok(()) => {},
            Err(e) => {
                proof {
                    assert(!mv[0].faulty());
                    lemma_first_fault(pv);
                    assert(pv[0].faulty());
                    assert(seq![mv[0], pv[0]][0] == mv[0]);
                    assert(first_fault(pv) == Some(pv[0].kind()));
                }
                return Err(e);
            },
        }
        if responds {
            Ok(Some(Transport::new()))
        } else {
            self.progress.status.record(Diagnostic::NfcAbsent);
            Ok(None)
        }
    }

    /// Enables the communication peripherals and, when NFC is enabled,
    /// brings up the NFC front-end if it answers on the bus.
    pub fn next(
        self,
        flexcomm0: Unconfigured,
        flexcomm5: Unconfigured,
        mux: Unconfigured,
        pint: Unconfigured,
        nfc_enabled: bool,
        nfc_responds: bool,
    ) -> (r: Result<Stage3, BringupError>)
        requires
            flexcomm0.kind() == Peripheral::Flexcomm0,
            flexcomm5.kind() == Peripheral::Flexcomm5,
            mux.kind() == Peripheral::InputMux,
            pint.kind() == Peripheral::Pint,
        ensures
            !nfc_enabled ==> r is Ok,
            nfc_enabled ==> (r is Ok <==> no_fault(seq![flexcomm0, mux, pint])),
            r is Err ==> r->Err_0 == BringupError::Hardware(
                first_fault(seq![flexcomm0, mux, pint]).unwrap(),
            ),
            r matches Ok(s) ==> s.config() == self.config(),
            r matches Ok(s) ==> s.ui() == self.ui(),
            r matches Ok(s) ==> (s.nfc() is Some <==> nfc_enabled && nfc_responds),
            r matches Ok(s) ==> s.kinds() == if nfc_enabled {
                self.kinds() + seq![Peripheral::Flexcomm0, Peripheral::Pint]
            } else {
                self.kinds()
            },
            r matches Ok(s) ==> s.status() == if nfc_enabled && !nfc_responds {
                self.status().push(Diagnostic::NfcAbsent)
            } else {
                self.status()
            },
    {
        let mut this = self;
        let nfc = if nfc_enabled {
            proof {
                let v = seq![flexcomm0, mux, pint];
                assert(v.drop_first() =~= seq![mux, pint]);
                assert(no_fault(v) <==> !flexcomm0.faulty() && no_fault(seq![mux, pint])) by {
                    assert(v[0] == flexcomm0);
                    assert(v[1] == mux);
                    assert(v[2] == pint);
                    assert(seq![mux, pint][0] == mux);
                    assert(seq![mux, pint][1] == pint);
                }
                lemma_first_fault(v);
                lemma_first_fault(seq![mux, pint]);
            }
            match this.setup_spi(flexcomm0) {
                Ok(()) => {},
                Err(e) => {
                    return Err(e);
                },
            }
            match this.setup_fm11nc08(mux, pint, nfc_responds) {
                Ok(t) => t,
                Err(e) => {
                    return Err(e);
                },
            }
        } else {
            None
        };
        Ok(Stage3 { progress: this.progress, config: this.config, ui: this.ui, nfc })
    }
}

impl Stage3 {
    pub closed spec fn kinds(&self) -> Seq<Peripheral> {
        enabled_kinds(self.progress.enabled@)
    }

    pub closed spec fn status(&self) -> Seq<Diagnostic> {
        self.progress.status@
    }

    pub closed spec fn config(&self) -> Config {
        self.config
    }

    pub closed spec fn ui(&self) -> Ui {
        self.ui
    }

    pub closed spec fn nfc(&self) -> Option<TransportModel> {
        opt_view(self.nfc)
    }

    /// Enables the random-number generator, the flash encryption engine and
    /// the flash controller.
    pub fn next(self, rng: Unconfigured, prince: Unconfigured, flash: Unconfigured) -> (r: Result<
        Stage4,
        BringupError,
    >)
        requires
            rng.kind() == Peripheral::Rng,
            prince.kind() == Peripheral::Prince,
            flash.kind() == Peripheral::Flash,
        ensures
            r is Ok <==> no_fault(seq![rng, prince, flash]),
            r is Err ==> r->Err_0 == BringupError::Hardware(
                first_fault(seq![rng, prince, flash]).unwrap(),
            ),
            r matches Ok(s) ==> s.kinds() == self.kinds() + seq![
                Peripheral::Rng,
                Peripheral::Prince,
                Peripheral::Flash,
            ] && s.status() == self.status() && s.config() == self.config() && s.nfc()
                == self.nfc(),
            r matches Ok(s) ==> s.ui() == self.ui(),
    {
        let mut progress = self.progress;
        let hs = vec![rng, prince, flash];
        let ghost v = hs@;
        proof {
            assert(kinds_of(v) =~= seq![Peripheral::Rng, Peripheral::Prince, Peripheral::Flash]);
        }
        match enable_all(&mut progress.enabled, hs) {
            Ok(()) => Ok(Stage4 { progress, config: self.config, ui: self.ui, nfc: self.nfc }),
            Err(e) => Err(e),
        }
    }
}

impl Stage4 {
    pub closed spec fn kinds(&self) -> Seq<Peripheral> {
        enabled_kinds(self.progress.enabled@)
    }

    pub closed spec fn status(&self) -> Seq<Diagnostic> {
        self.progress.status@
    }

    pub closed spec fn config(&self) -> Config {
        self.config
    }

    pub closed spec fn ui(&self) -> Ui {
        self.ui
    }

    pub closed spec fn nfc(&self) -> Option<TransportModel> {
        opt_view(self.nfc)
    }

    /// Activates flash encryption hardening when storage is encrypted.
    pub fn next(self) -> (r: Stage5)
        ensures
            r.kinds() == self.kinds(),
            r.status() == self.status(),
            r.config() == self.config(),
            r.nfc() == self.nfc(),
            r.prince_active() == self.config().require_prince,
            r.ui() == self.ui(),
    {
        Stage5 {
            progress: self.progress,
            config: self.config,
            ui: self.ui,
            nfc: self.nfc,
            prince_active: self.config.require_prince,
        }
    }
}

impl Stage5 {
    pub closed spec fn kinds(&self) -> Seq<Peripheral> {
        enabled_kinds(self.progress.enabled@)
    }

    pub closed spec fn status(&self) -> Seq<Diagnostic> {
        self.progress.status@
    }

    pub closed spec fn config(&self) -> Config {
        self.config
    }

    pub closed spec fn ui(&self) -> Ui {
        self.ui
    }

    pub closed spec fn nfc(&self) -> Option<TransportModel> {
        opt_view(self.nfc)
    }

    pub closed spec fn prince_active(&self) -> bool {
        self.prince_active
    }

    /// Enables the real-time clock, then mounts the internal filesystem,
    /// recovering it once if the mount fails.
    pub fn next(self, rtc: Unconfigured, store: Store) -> (r: Result<Stage6, BringupError>)
        requires
            rtc.kind() == Peripheral::Rtc,
            store.ifs@.wf(),
        ensures
            r is Ok <==> !rtc.faulty() && boot_mount(store.ifs@).2 is Ok,
            rtc.faulty() ==> r == Err::<Stage6, BringupError>(BringupError::Hardware(Peripheral::Rtc)),
            !rtc.faulty() && boot_mount(store.ifs@).2 is Err ==> r == Err::<Stage6, BringupError>(
                BringupError::Storage(StorageError::UnrecoverableCorruption),
            ),
            r matches Ok(s) ==> s.kinds() == self.kinds().push(Peripheral::Rtc) && s.status()
                == self.status() + boot_mount(store.ifs@).1 && s.config() == self.config()
                && s.nfc() == self.nfc() && s.prince_active() == self.prince_active()
                && s.ifs() == boot_mount(store.ifs@).0 && s.efs() == store.efs.model(),
            r matches Ok(s) ==> s.ui() == self.ui(),
    {
        let mut progress = self.progress;
        let hs = vec![rtc];
        let ghost v = hs@;
        proof {
            assert(kinds_of(v) =~= seq![Peripheral::Rtc]);
            if !no_fault(v) {
                assert(v[0].faulty());
            }
        }
        match enable_all(&mut progress.enabled, hs) {
            Ok(()) => {},
            Err(e) => {
                return Err(e);
            },
        }
        let mut store = store;
        match store.mount_internal(&mut progress.status) {
            Ok(()) => Ok(
                Stage6 {
                    progress,
                    config: self.config,
                    ui: self.ui,
                    nfc: self.nfc,
                    prince_active: self.prince_active,
                    store,
                },
            ),
            Err(e) => Err(BringupError::Storage(e)),
        }
    }
}

impl Stage6 {
    pub closed spec fn kinds(&self) -> Seq<Peripheral> {
        enabled_kinds(self.progress.enabled@)
    }

    pub closed spec fn status(&self) -> Seq<Diagnostic> {
        self.progress.status@
    }

    pub closed spec fn config(&self) -> Config {
        self.config
    }

    pub closed spec fn ui(&self) -> Ui {
        self.ui
    }

    pub closed spec fn nfc(&self) -> Option<TransportModel> {
        opt_view(self.nfc)
    }

    pub closed spec fn prince_active(&self) -> bool {
        self.prince_active
    }

    pub closed spec fn ifs(&self) -> RegionModel {
        self.store.ifs@
    }

    pub closed spec fn efs(&self) -> Option<RegionModel> {
        self.store.efs.model()
    }

    /// Enables the high-speed USB controller and assembles the device.
    pub fn next(self, usbhs: Unconfigured) -> (r: Result<All, BringupError>)
        requires
            usbhs.kind() == Peripheral::Usbhs,
        ensures
            r is Ok <==> !usbhs.faulty(),
            r is Err ==> r->Err_0 == BringupError::Hardware(Peripheral::Usbhs),
            r matches Ok(a) ==> enabled_kinds(a.peripherals@) == self.kinds().push(Peripheral::Usbhs)
                && a.status@ == self.status() && opt_view(a.nfc) == self.nfc()
                && a.prince_active == self.prince_active() && a.store.ifs@ == self.ifs()
                && a.store.efs.model() == self.efs() && opt_view(a.usb_classes) == Some(
                TransportModel { fifo: Seq::empty(), buffer: Seq::empty(), outgoing: Seq::empty() },
            ),
            r matches Ok(a) ==> a.rgb == self.ui().rgb && a.buttons == self.ui().buttons
                && a.clock_controller == self.ui().clock_controller,
    {
        let mut progress = self.progress;
        let hs = vec![usbhs];
        let ghost v = hs@;
        proof {
            assert(kinds_of(v) =~= seq![Peripheral::Usbhs]);
            if !no_fault(v) {
                assert(v[0].faulty());
            }
        }
        match enable_all(&mut progress.enabled, hs) {
            Ok(()) => Ok(
                All {
                    status: progress.status,
                    store: self.store,
                    nfc: self.nfc,
                    usb_classes: Some(Transport::new()),
                    peripherals: progress.enabled,
                    prince_active: self.prince_active,
                    rgb: self.ui.rgb,
                    buttons: self.ui.buttons,
                    clock_controller: self.ui.clock_controller,
                },
            ),
            Err(e) => Err(e),
        }
    }
}

/// Starts bring-up: enables the core clock and power management.
pub fn start(syscon: Unconfigured, pmc: Unconfigured, anactrl: Unconfigured) -> (r: Result<
    Stage0,
    BringupError,
>)
    requires
        syscon.kind() == Peripheral::Syscon,
        pmc.kind() == Peripheral::Pmc,
        anactrl.kind() == Peripheral::Anactrl,
    ensures
        r is Ok <==> no_fault(seq![syscon, pmc, anactrl]),
        r is Err ==> r->Err_0 == BringupError::Hardware(
            first_fault(seq![syscon, pmc, anactrl]).unwrap(),
        ),
        r matches Ok(s) ==> s.kinds() == seq![Peripheral::Syscon, Peripheral::Pmc, Peripheral::Anactrl]
            && s.status() == Seq::<Diagnostic>::empty(),
{
    let mut progress = Progress { status: StatusReport::new(), enabled: Vec::new() };
    let hs = vec![syscon, pmc, anactrl];
    let ghost v = hs@;
    proof {
        assert(kinds_of(v) =~= seq![Peripheral::Syscon, Peripheral::Pmc, Peripheral::Anactrl]);
        assert(enabled_kinds(progress.enabled@) =~= Seq::<Peripheral>::empty());
    }
    match enable_all(&mut progress.enabled, hs) {
        Ok(()) => Ok(Stage0 { progress }),
        Err(e) => Err(e),
    }
}

proof fn lemma_no_fault_concat(a: Seq<Unconfigured>, b: Seq<Unconfigured>)
    ensures
        no_fault(a + b) <==> no_fault(a) && no_fault(b),
{
    if no_fault(a + b) {
        assert forall|i: int| 0 <= i < a.len() implies !(#[trigger] a[i]).faulty() by {
            assert((a + b)[i] == a[i]);
        }
        assert forall|i: int| 0 <= i < b.len() implies !(#[trigger] b[i]).faulty() by {
            assert((a + b)[a.len() + i] == b[i]);
        }
    }
    if no_fault(a) && no_fault(b) {
        assert forall|i: int| 0 <= i < (a + b).len() implies !(#[trigger] (a + b)[i]).faulty() by {
            if i < a.len() {
                assert((a + b)[i] == a[i]);
            } else {
                assert((a + b)[i] == b[i - a.len()]);
            }
        }
    }
}

proof fn lemma_first_fault_concat(a: Seq<Unconfigured>, b: Seq<Unconfigured>)
    ensures
        first_fault(a + b) == if no_fault(a) {
            first_fault(b)
        } else {
            first_fault(a)
        },
    decreases a.len(),
{
    lemma_first_fault(a);
    if a.len() == 0 {
        assert(a + b =~= b);
    } else {
        assert((a + b).drop_first() =~= a.drop_first() + b);
        assert((a + b)[0] == a[0]);
        lemma_first_fault_concat(a.drop_first(), b);
        lemma_first_fault(a.drop_first());
    }
}

/// Raw handles of every peripheral the pipeline is given.
pub struct Peripherals {
    pub syscon: Unconfigured,
    pub pmc: Unconfigured,
    pub anactrl: Unconfigured,
    pub iocon: Unconfigured,
    pub gpio: Unconfigured,
    pub adc: Unconfigured,
    pub ctimer0: Unconfigured,
    pub ctimer1: Unconfigured,
    pub ctimer2: Unconfigured,
    pub ctimer3: Unconfigured,
    pub ctimer4: Unconfigured,
    pub pfr: Unconfigured,
    pub flexcomm0: Unconfigured,
    pub flexcomm5: Unconfigured,
    pub inputmux: Unconfigured,
    pub pint: Unconfigured,
    pub rng: Unconfigured,
    pub prince: Unconfigured,
    pub flash: Unconfigured,
    pub rtc: Unconfigured,
    pub usbhs: Unconfigured,
}

impl Peripherals {
    /// Each handle is the one of its field's peripheral.
    pub open spec fn wf(&self) -> bool {
        &&& self.syscon.kind() == Peripheral::Syscon
        &&& self.pmc.kind() == Peripheral::Pmc
        &&& self.anactrl.kind() == Peripheral::Anactrl
        &&& self.iocon.kind() == Peripheral::Iocon
        &&& self.gpio.kind() == Peripheral::Gpio
        &&& self.adc.kind() == Peripheral::Adc
        &&& self.ctimer0.kind() == Peripheral::Ctimer0
        &&& self.ctimer1.kind() == Peripheral::Ctimer1
        &&& self.ctimer2.kind() == Peripheral::Ctimer2
        &&& self.ctimer3.kind() == Peripheral::Ctimer3
        &&& self.ctimer4.kind() == Peripheral::Ctimer4
        &&& self.pfr.kind() == Peripheral::Pfr
        &&& self.flexcomm0.kind() == Peripheral::Flexcomm0
        &&& self.flexcomm5.kind() == Peripheral::Flexcomm5
        &&& self.inputmux.kind() == Peripheral::InputMux
        &&& self.pint.kind() == Peripheral::Pint
        &&& self.rng.kind() == Peripheral::Rng
        &&& self.prince.kind() == Peripheral::Prince
        &&& self.flash.kind() == Peripheral::Flash
        &&& self.rtc.kind() == Peripheral::Rtc
        &&& self.usbhs.kind() == Peripheral::Usbhs
    }

    /// The handles bring-up enables, stage by stage, in order.
    pub open spec fn bringup_order(&self) -> Seq<Unconfigured> {
        self.before_usb() + seq![self.usbhs]
    }

    /// The handles enabled before storage is mounted, in order.
    pub open spec fn before_usb(&self) -> Seq<Unconfigured> {
        seq![self.syscon, self.pmc, self.anactrl] + seq![self.iocon, self.gpio] + seq![
            self.adc,
            self.ctimer0,
            self.ctimer1,
            self.ctimer2,
            self.ctimer3,
            self.ctimer4,
            self.pfr,
        ] + seq![self.flexcomm0, self.inputmux, self.pint] + seq![self.rng, self.prince, self.flash]
            + seq![self.rtc]
    }

    /// Handles for every peripheral, none of which reports a fault.
    pub fn healthy() -> (r: Peripherals)
        ensures
            r.wf(),
            no_fault(r.bringup_order()),
            !r.flexcomm5.faulty(),
    {
        let r = Peripherals {
            syscon: Unconfigured::new(Peripheral::Syscon, false),
            pmc: Unconfigured::new(Peripheral::Pmc, false),
            anactrl: Unconfigured::new(Peripheral::Anactrl, false),
            iocon: Unconfigured::new(Peripheral::Iocon, false),
            gpio: Unconfigured::new(Peripheral::Gpio, false),
            adc: Unconfigured::new(Peripheral::Adc, false),
            ctimer0: Unconfigured::new(Peripheral::Ctimer0, false),
            ctimer1: Unconfigured::new(Peripheral::Ctimer1, false),
            ctimer2: Unconfigured::new(Peripheral::Ctimer2, false),
            ctimer3: Unconfigured::new(Peripheral::Ctimer3, false),
            ctimer4: Unconfigured::new(Peripheral::Ctimer4, false),
            pfr: Unconfigured::new(Peripheral::Pfr, false),
            flexcomm0: Unconfigured::new(Peripheral::Flexcomm0, false),
            flexcomm5: Unconfigured::new(Peripheral::Flexcomm5, false),
            inputmux: Unconfigured::new(Peripheral::InputMux, false),
            pint: Unconfigured::new(Peripheral::Pint, false),
            rng: Unconfigured::new(Peripheral::Rng, false),
            prince: Unconfigured::new(Peripheral::Prince, false),
            flash: Unconfigured::new(Peripheral::Flash, false),
            rtc: Unconfigured::new(Peripheral::Rtc, false),
            usbhs: Unconfigured::new(Peripheral::Usbhs, false),
        };
        r
    }
}

/// Every peripheral the device has once bring-up completes, in order.
pub open spec fn device_kinds() -> Seq<Peripheral> {
    seq![
        Peripheral::Syscon,
        Peripheral::Pmc,
        Peripheral::Anactrl,
        Peripheral::Iocon,
        Peripheral::Gpio,
        Peripheral::Ctimer0,
        Peripheral::Ctimer2,
        Peripheral::Ctimer4,
        Peripheral::Pfr,
        Peripheral::Flexcomm0,
        Peripheral::Pint,
        Peripheral::Rng,
        Peripheral::Prince,
        Peripheral::Flash,
        Peripheral::Rtc,
        Peripheral::Usbhs,
    ]
}

/// Diagnostics bring-up records: a missing NFC front-end, then those of the
/// boot-time mount.
pub open spec fn bringup_status(nfc_responds: bool, m: RegionModel) -> Seq<Diagnostic> {
    if nfc_responds {
        boot_mount(m).1
    } else {
        seq![Diagnostic::NfcAbsent] + boot_mount(m).1
    }
}

/// The error bring-up stops with: the first handle to fault before storage
/// is mounted, else the storage failure, else the USB controller's fault.
pub open spec fn bringup_error(hal: Peripherals, m: RegionModel) -> BringupError {
    if !no_fault(hal.before_usb()) {
        BringupError::Hardware(first_fault(hal.before_usb()).unwrap())
    } else if boot_mount(m).2 is Err {
        BringupError::Storage(StorageError::UnrecoverableCorruption)
    } else {
        BringupError::Hardware(Peripheral::Usbhs)
    }
}

/// Brings the board up: runs every stage in order and assembles the device.
/// `nfc_responds` is whether the NFC front-end answers the bus probe;
/// `encrypted_storage` whether storage is encrypted by the flash encryption
/// engine. The device comes out if and only if no enable reports a hardware
/// fault and the internal filesystem mounts, at once or after one recovery.
pub fn init(hal: Peripherals, store: Store, encrypted_storage: bool, nfc_responds: bool) -> (r: Result<
    All,
    BringupError,
>)
    requires
        hal.wf(),
        store.ifs@.wf(),
    ensures
        r is Ok <==> no_fault(hal.bringup_order()) && boot_mount(store.ifs@).2 is Ok,
        r matches Err(e) ==> e == bringup_error(hal, store.ifs@),
        r matches Ok(a) ==> {
            &&& enabled_kinds(a.peripherals@) == device_kinds()
            &&& a.status@ == bringup_status(nfc_responds, store.ifs@)
            &&& (a.nfc is Some <==> nfc_responds)
            &&& a.usb_classes is Some
            &&& a.rgb.kind() == Peripheral::Ctimer3
            &&& a.buttons.kind() == Peripheral::Ctimer1
            &&& a.clock_controller.kind() == Peripheral::Adc
            &&& a.prince_active == encrypted_storage
            &&& a.store.ifs@ == boot_mount(store.ifs@).0
            &&& a.store.efs.model() == store.efs.model()
        },
{
    let secure_firmware_version: Option<u32> = None;
    let nfc_enabled = true;
    let boot_to_bootrom = true;
    proof {
        let s0 = seq![hal.syscon, hal.pmc, hal.anactrl];
        let s1 = seq![hal.iocon, hal.gpio];
        let s2 = seq![hal.adc, hal.ctimer0, hal.ctimer1, hal.ctimer2, hal.ctimer3, hal.ctimer4, hal.pfr];
        let s3 = seq![hal.flexcomm0, hal.inputmux, hal.pint];
        let s4 = seq![hal.rng, hal.prince, hal.flash];
        let s5 = seq![hal.rtc];
        let s6 = seq![hal.usbhs];
        lemma_no_fault_concat(s0, s1);
        lemma_no_fault_concat(s0 + s1, s2);
        lemma_no_fault_concat(s0 + s1 + s2, s3);
        lemma_no_fault_concat(s0 + s1 + s2 + s3, s4);
        lemma_no_fault_concat(s0 + s1 + s2 + s3 + s4, s5);
        lemma_no_fault_concat(s0 + s1 + s2 + s3 + s4 + s5, s6);
        lemma_first_fault_concat(s0, s1);
        lemma_first_fault_concat(s0 + s1, s2);
        lemma_first_fault_concat(s0 + s1 + s2, s3);
        lemma_first_fault_concat(s0 + s1 + s2 + s3, s4);
        lemma_first_fault_concat(s0 + s1 + s2 + s3 + s4, s5);
        lemma_first_fault(s0 + s1 + s2 + s3 + s4 + s5);
        assert(first_fault(s5) == if hal.rtc.faulty() { Some(Peripheral::Rtc) } else { None::<Peripheral> }) by {
            assert(s5[0] == hal.rtc);
            assert(s5.drop_first().len() == 0);
            assert(first_fault(s5.drop_first()) == None::<Peripheral>);
        }
        assert(no_fault(s5) <==> !hal.rtc.faulty()) by {
            assert(s5[0] == hal.rtc);
        }
        assert(no_fault(s6) <==> !hal.usbhs.faulty()) by {
            assert(s6[0] == hal.usbhs);
        }
    }
    let s0 = match start(hal.syscon, hal.pmc, hal.anactrl) {
        Ok(s) => s,
        Err(e) => {
            return Err(e);
        },
    };
    let s1 = match s0.next(hal.iocon, hal.gpio) {
        Ok(s) => s,
        Err(e) => {
            return Err(e);
        },
    };
    let s2 = match s1.next(
        hal.adc,
        hal.ctimer0,
        hal.ctimer1,
        hal.ctimer2,
        hal.ctimer3,
        hal.ctimer4,
        hal.pfr,
        secure_firmware_version,
        encrypted_storage,
        boot_to_bootrom,
    ) {
        Ok(s) => s,
        Err(e) => {
            return Err(e);
        },
    };
    let s3 = match s2.next(
        hal.flexcomm0,
        hal.flexcomm5,
        hal.inputmux,
        hal.pint,
        nfc_enabled,
        nfc_responds,
    ) {
        Ok(s) => s,
        Err(e) => {
            return Err(e);
        },
    };
    let s4 = match s3.next(hal.rng, hal.prince, hal.flash) {
        Ok(s) => s,
        Err(e) => {
            return Err(e);
        },
    };
    let s5 = s4.next();
    let s6 = match s5.next(hal.rtc, store) {
        Ok(s) => s,
        Err(e) => {
            return Err(e);
        },
    };
    let r = s6.next(hal.usbhs);
    proof {
        if r is Ok {
            assert(r->Ok_0.status@ =~= bringup_status(nfc_responds, store.ifs@));
            assert(enabled_kinds(r->Ok_0.peripherals@) =~= device_kinds());
        }
    }
    r
}

} // verus!
