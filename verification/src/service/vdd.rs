//! The driver of the virtual display: putting it on a machine and taking it off.

use crate::commands::{self, Command, CommandView, OnFailure};
use crate::parse;
use crate::text;
use vstd::prelude::*;
use vstd::string::StringExecFns;

verus! {

/// A size that the virtual display offers.
#[derive(Debug, Clone, Copy, PartialEq, Eq, Structural)]
pub struct DisplaySize {
    pub width: u32,
    pub height: u32,
}

/// The sizes that the virtual display offers, each at 60 Hz.
pub open spec fn sizes() -> Seq<DisplaySize> {
    seq![
        DisplaySize { width: 640, height: 480 },
        DisplaySize { width: 800, height: 600 },
        DisplaySize { width: 1024, height: 768 },
        DisplaySize { width: 1152, height: 864 },
        DisplaySize { width: 1280, height: 720 },
        DisplaySize { width: 1280, height: 800 },
        DisplaySize { width: 1280, height: 960 },
        DisplaySize { width: 1280, height: 1024 },
        DisplaySize { width: 1366, height: 768 },
        DisplaySize { width: 1440, height: 900 },
        DisplaySize { width: 1600, height: 900 },
        DisplaySize { width: 1600, height: 1200 },
        DisplaySize { width: 1680, height: 1050 },
        DisplaySize { width: 1920, height: 1080 },
    ]
}

/// One size as it is written in the settings.
pub open spec fn size_line(size: DisplaySize) -> Seq<char> {
    "        <resolution><width>"@ + text::decimal(size.width as nat) + "</width><height>"@
        + text::decimal(size.height as nat) + "</height><refresh_rate>60</refresh_rate></resolution>\n"@
}

/// The first `n` sizes as they are written in the settings.
pub open spec fn size_lines(n: int) -> Seq<char>
    decreases n,
{
    if n <= 0 {
        Seq::empty()
    } else {
        size_lines(n - 1) + size_line(sizes()[n - 1])
    }
}

/// What stands before the sizes.
pub open spec fn settings_head() -> Seq<char> {
    "<?xml version='1.0' encoding='utf-8'?>\n<vdd_settings>\n    <monitors>\n        <count>1</count>\n    </monitors>\n    <gpu>\n        <friendlyname>NVIDIA</friendlyname>\n    </gpu>\n    <global>\n        <g_refresh_rate>60</g_refresh_rate>\n    </global>\n    <resolutions>\n"@
}

/// What stands after the sizes.
pub open spec fn settings_tail() -> Seq<char> {
    "    </resolutions>\n    <options>\n        <CustomEdid>false</CustomEdid>\n        <HardwareCursor>true</HardwareCursor>\n        <SDR10bit>false</SDR10bit>\n        <HDRPlus>false</HDRPlus>\n        <logging>false</logging>\n        <debuglogging>false</debuglogging>\n    </options>\n</vdd_settings>"@
}

/// The sizes that the virtual display offers.
pub fn all_sizes() -> (list: Vec<DisplaySize>)
    ensures
        list@ == sizes(),
{
    vec![
        DisplaySize { width: 640, height: 480 },
        DisplaySize { width: 800, height: 600 },
        DisplaySize { width: 1024, height: 768 },
        DisplaySize { width: 1152, height: 864 },
        DisplaySize { width: 1280, height: 720 },
        DisplaySize { width: 1280, height: 800 },
        DisplaySize { width: 1280, height: 960 },
        DisplaySize { width: 1280, height: 1024 },
        DisplaySize { width: 1366, height: 768 },
        DisplaySize { width: 1440, height: 900 },
        DisplaySize { width: 1600, height: 900 },
        DisplaySize { width: 1600, height: 1200 },
        DisplaySize { width: 1680, height: 1050 },
        DisplaySize { width: 1920, height: 1080 },
    ]
}

/// The settings of the virtual display: one monitor on the NVIDIA GPU.
pub fn vdd_settings_xml() -> (xml: String)
    ensures
        xml@ == settings_head() + size_lines(sizes().len() as int) + settings_tail(),
{
    let list: Vec<DisplaySize> = all_sizes();
    let total: usize = list.len();
    let mut xml: String = String::from_str(
        "<?xml version='1.0' encoding='utf-8'?>\n<vdd_settings>\n    <monitors>\n        <count>1</count>\n    </monitors>\n    <gpu>\n        <friendlyname>NVIDIA</friendlyname>\n    </gpu>\n    <global>\n        <g_refresh_rate>60</g_refresh_rate>\n    </global>\n    <resolutions>\n",
    );
    let mut i: usize = 0;
    assert(xml@ =~= settings_head() + size_lines(0));
    while i < total
        invariant
            i <= total == list@.len(),
            list@ == sizes(),
            xml@ == settings_head() + size_lines(i as int),
        decreases total - i,
    {
        let size: DisplaySize = list[i];
        xml.append("        <resolution><width>");
        text::push_decimal(&mut xml, size.width as u64);
        xml.append("</width><height>");
        text::push_decimal(&mut xml, size.height as u64);
        xml.append("</height><refresh_rate>60</refresh_rate></resolution>\n");
        i = i + 1;
        assert(xml@ =~= settings_head() + size_lines(i as int));
    }
    xml.append(
        "    </resolutions>\n    <options>\n        <CustomEdid>false</CustomEdid>\n        <HardwareCursor>true</HardwareCursor>\n        <SDR10bit>false</SDR10bit>\n        <HDRPlus>false</HDRPlus>\n        <logging>false</logging>\n        <debuglogging>false</debuglogging>\n    </options>\n</vdd_settings>",
    );
    xml
}

/// A script for PowerShell, as a command.
pub open spec fn powershell(script: Seq<char>, on_failure: OnFailure) -> CommandView {
    CommandView { program: "powershell"@, args: seq!["-NoProfile"@, "-Command"@, script], on_failure }
}

fn script_command(script: &str, on_failure: OnFailure) -> (c: Command)
    ensures
        c@ == powershell(script@, on_failure),
{
    let c: Command = commands::command("powershell", vec!["-NoProfile", "-Command", script], on_failure);
    assert(c@.args =~= powershell(script@, on_failure).args);
    c
}

/// The script that downloads `url` to `dest`, in three attempts.
pub open spec fn download_script(url: Seq<char>, dest: Seq<char>) -> Seq<char> {
    "[Net.ServicePointManager]::SecurityProtocol = [Net.SecurityProtocolType]::Tls12; $ProgressPreference = 'SilentlyContinue'; $ErrorActionPreference = 'Stop'; for ($i = 1; $i -le 3; $i++) { try { Invoke-WebRequest -Uri '"@
        + url + "' -OutFile '"@ + dest
        + "' -UseBasicParsing; exit 0 } catch { Write-Host \"download attempt $i failed: $_\"; if ($i -lt 3) { Start-Sleep -Seconds 2 } } }; exit 1"@
}

/// The command that downloads `url` to `dest`.
pub fn ps_download(url: &str, dest: &str) -> (c: Command)
    ensures
        c@ == powershell(download_script(url@, dest@), OnFailure::Stop),
{
    let mut script: String = String::from_str(
        "[Net.ServicePointManager]::SecurityProtocol = [Net.SecurityProtocolType]::Tls12; $ProgressPreference = 'SilentlyContinue'; $ErrorActionPreference = 'Stop'; for ($i = 1; $i -le 3; $i++) { try { Invoke-WebRequest -Uri '",
    );
    script.append(url);
    script.append("' -OutFile '");
    script.append(dest);
    script.append(
        "' -UseBasicParsing; exit 0 } catch { Write-Host \"download attempt $i failed: $_\"; if ($i -lt 3) { Start-Sleep -Seconds 2 } } }; exit 1",
    );
    script_command(script.as_str(), OnFailure::Stop)
}

/// The command that unpacks `zip` into `dest`.
pub fn ps_unzip(zip: &str, dest: &str) -> (c: Command)
    ensures
        c@ == powershell(
            "Expand-Archive -Path '"@ + zip@ + "' -DestinationPath '"@ + dest@ + "' -Force"@,
            OnFailure::Stop,
        ),
{
    let mut script: String = String::from_str("Expand-Archive -Path '");
    script.append(zip);
    script.append("' -DestinationPath '");
    script.append(dest);
    script.append("' -Force");
    script_command(script.as_str(), OnFailure::Stop)
}

/// The script that has the system trust whoever signed the catalogue at `cat`.
pub open spec fn trust_script(cat: Seq<char>) -> Seq<char> {
    "$key = 'HKLM:\\SOFTWARE\\Microsoft\\SystemCertificates\\TrustedPublisher'; if (-not (Test-Path $key)) { New-Item -Path $key -Force | Out-Null }; Add-Type -AssemblyName System.Security; $cms = New-Object System.Security.Cryptography.Pkcs.SignedCms; $cms.Decode([System.IO.File]::ReadAllBytes('"@
        + cat
        + "')); foreach ($cert in $cms.Certificates) { $f = [System.IO.Path]::GetTempFileName() + '.cer'; [System.IO.File]::WriteAllBytes($f, $cert.Export([System.Security.Cryptography.X509Certificates.X509ContentType]::Cert)); Import-Certificate -FilePath $f -CertStoreLocation 'Cert:\\LocalMachine\\TrustedPublisher' | Out-Null; Remove-Item $f }"@
}

/// The command that has the system trust whoever signed the catalogue at `cat`.
pub fn trust_publisher(cat: &str) -> (c: Command)
    ensures
        c@ == powershell(trust_script(cat@), OnFailure::Ignore),
{
    let mut script: String = String::from_str(
        "$key = 'HKLM:\\SOFTWARE\\Microsoft\\SystemCertificates\\TrustedPublisher'; if (-not (Test-Path $key)) { New-Item -Path $key -Force | Out-Null }; Add-Type -AssemblyName System.Security; $cms = New-Object System.Security.Cryptography.Pkcs.SignedCms; $cms.Decode([System.IO.File]::ReadAllBytes('",
    );
    script.append(cat);
    script.append(
        "')); foreach ($cert in $cms.Certificates) { $f = [System.IO.Path]::GetTempFileName() + '.cer'; [System.IO.File]::WriteAllBytes($f, $cert.Export([System.Security.Cryptography.X509Certificates.X509ContentType]::Cert)); Import-Certificate -FilePath $f -CertStoreLocation 'Cert:\\LocalMachine\\TrustedPublisher' | Out-Null; Remove-Item $f }",
    );
    script_command(script.as_str(), OnFailure::Ignore)
}

/// The command that removes a device of the driver by the kind of hardware it stands
/// for. `tool` is the program that can do it.
pub open spec fn node_removal(tool: Seq<char>, on_failure: OnFailure) -> CommandView {
    CommandView {
        program: tool,
        args: seq![
            "--remove-device-node"@,
            "--hardware-id"@,
            "Root\\MttVDD"@,
            "--class-guid"@,
            "{4D36E968-E325-11CE-BFC1-08002BE10318}"@,
        ],
        on_failure,
    }
}

pub fn remove_device_node(tool: &str, on_failure: OnFailure) -> (c: Command)
    ensures
        c@ == node_removal(tool@, on_failure),
{
    let c: Command = commands::command(
        tool,
        vec![
            "--remove-device-node",
            "--hardware-id",
            "Root\\MttVDD",
            "--class-guid",
            "{4D36E968-E325-11CE-BFC1-08002BE10318}",
        ],
        on_failure,
    );
    assert(c@.args =~= node_removal(tool@, on_failure).args);
    c
}

/// The command that makes one device and installs the driver at `inf` for it.
pub fn install_driver(tool: &str, inf: &str) -> (c: Command)
    ensures
        c@ == (CommandView {
            program: tool@,
            args: seq!["install"@, inf@, "Root\\MttVDD"@],
            on_failure: OnFailure::StopUnlessRun,
        }),
{
    let c: Command = commands::command(
        tool,
        vec!["install", inf, "Root\\MttVDD"],
        OnFailure::StopUnlessRun,
    );
    assert(c@.args =~= seq!["install"@, inf@, "Root\\MttVDD"@]);
    c
}

/// How installing the driver ended, by the exit code of the tool. A tool that was
/// ended from outside has none.
#[derive(Debug, Clone, Copy, PartialEq, Eq, Structural)]
pub enum DriverInstall {
    Installed { reboot: bool },
    Failed { code: i32 },
}

pub fn judge_install(code: Option<i32>) -> (outcome: DriverInstall)
    ensures
        outcome == match code {
            Some(c) => if c == 0 || c == 3010 {
                DriverInstall::Installed { reboot: c == 3010 }
            } else {
                DriverInstall::Failed { code: c }
            },
            None => DriverInstall::Failed { code: (-1int) as i32 },
        },
{
    let code: i32 = match code {
        Some(c) => c,
        None => -1,
    };
    if code == 0 || code == 3010 {
        DriverInstall::Installed { reboot: code == 3010 }
    } else {
        DriverInstall::Failed { code }
    }
}

/// What is left of `line` after `prefix`, where it begins with it.
pub open spec fn after_prefix(line: Seq<char>, prefix: Seq<char>) -> Option<Seq<char>> {
    if prefix.len() <= line.len() && line.take(prefix.len() as int) == prefix {
        Some(line.skip(prefix.len() as int))
    } else {
        None
    }
}

fn strip_prefix(line: &str, prefix: &str) -> (rest: Option<String>)
    ensures
        rest is Some <==> after_prefix(line@, prefix@) is Some,
        rest matches Some(r) ==> after_prefix(line@, prefix@) == Some(r@),
{
    let chars: Vec<char> = text::chars_of(line);
    let start: Vec<char> = text::chars_of(prefix);
    let total: usize = chars.len();
    let len: usize = start.len();
    if len > total {
        return None;
    }
    let head: String = text::text_of(chars.as_slice(), 0, len);
    assert(head@ == line@.take(len as int));
    if !text::same(head.as_str(), prefix) {
        return None;
    }
    assert(line@.subrange(len as int, total as int) == line@.skip(len as int));
    Some(text::text_of(chars.as_slice(), len, total))
}

/// The text speaks of the driver, whatever the case of its letters.
pub open spec fn mentions_driver(t: Seq<char>) -> bool {
    text::occurs(text::lowered(t), "mttvdd"@)
}

fn mentions(t: &str) -> (found: bool)
    ensures
        found == mentions_driver(t@),
{
    let low: String = text::to_lowercase(t);
    text::contains(low.as_str(), "mttvdd")
}

/// The device of the driver that a line names, if it names one.
pub open spec fn device_in(line: Seq<char>) -> Option<Seq<char>> {
    match after_prefix(parse::trimmed(line), "Instance ID:"@) {
        Some(id) => if mentions_driver(parse::trimmed(id)) {
            Some(parse::trimmed(id))
        } else {
            None
        },
        None => None,
    }
}

/// The devices of the driver that the first `n` lines name.
pub open spec fn devices_in(lines: Seq<Seq<char>>, n: int) -> Seq<Seq<char>>
    decreases n,
{
    if n <= 0 {
        Seq::empty()
    } else {
        match device_in(lines[n - 1]) {
            Some(id) => devices_in(lines, n - 1).push(id),
            None => devices_in(lines, n - 1),
        }
    }
}

/// The lines of what a tool printed. White space around a line does not matter to
/// what is read from it.
pub open spec fn lines_of(printed: Seq<char>) -> Seq<Seq<char>> {
    parse::pieces(printed, '\n')
}

/// The devices of the driver among all that the system lists. All of them go before
/// a new one is made, so that there is never more than one.
pub fn driver_devices(printed: &str) -> (ids: Vec<String>)
    ensures
        parse::views(ids@) == devices_in(lines_of(printed@), lines_of(printed@).len() as int),
{
    let lines: Vec<String> = parse::split(printed, '\n');
    let ghost all = lines_of(printed@);
    let total: usize = lines.len();
    let mut ids: Vec<String> = Vec::new();
    let mut i: usize = 0;
    assert(parse::views(ids@) =~= devices_in(all, 0));
    while i < total
        invariant
            i <= total == lines@.len(),
            parse::views(lines@) == all,
            parse::views(ids@) == devices_in(all, i as int),
        decreases total - i,
    {
        assert(all[i as int] == lines@[i as int]@);
        let line: String = parse::trim(lines[i].as_str());
        let ghost earlier = ids@;
        if let Some(rest) = strip_prefix(line.as_str(), "Instance ID:") {
            let id: String = parse::trim(rest.as_str());
            if mentions(id.as_str()) {
                ids.push(id);
                assert(parse::views(ids@) =~= parse::views(earlier).push(id@));
            }
        }
        i = i + 1;
    }
    assert(all.len() == lines@.len());
    ids
}

/// The packages of the driver that the first `n` lines name, and the package that
/// the lines after them are about.
pub open spec fn packages_in(lines: Seq<Seq<char>>, n: int) -> (Seq<Seq<char>>, Option<Seq<char>>)
    decreases n,
{
    if n <= 0 {
        (Seq::empty(), None)
    } else {
        let (names, current) = packages_in(lines, n - 1);
        let line = parse::trimmed(lines[n - 1]);
        match after_prefix(line, "Published Name:"@) {
            Some(name) => (names, Some(parse::trimmed(name))),
            None => match current {
                Some(name) => if mentions_driver(line) && !names.contains(name) {
                    (names.push(name), current)
                } else {
                    (names, current)
                },
                None => (names, current),
            },
        }
    }
}

fn holds(names: &Vec<String>, name: &str) -> (found: bool)
    ensures
        found == parse::views(names@).contains(name@),
{
    let total: usize = names.len();
    let mut i: usize = 0;
    while i < total
        invariant
            i <= total == names@.len(),
            forall|j: int| 0 <= j < i ==> (#[trigger] parse::views(names@)[j]) != name@,
        decreases total - i,
    {
        assert(parse::views(names@)[i as int] == names@[i as int]@);
        if text::same(names[i].as_str(), name) {
            return true;
        }
        i = i + 1;
    }
    false
}

/// The packages of the driver in the system's store, each once: those of which a line
/// after their name speaks of it.
pub fn driver_packages(printed: &str) -> (names: Vec<String>)
    ensures
        parse::views(names@) == packages_in(
            lines_of(printed@),
            lines_of(printed@).len() as int,
        ).0,
{
    let lines: Vec<String> = parse::split(printed, '\n');
    let ghost all = lines_of(printed@);
    let total: usize = lines.len();
    let mut names: Vec<String> = Vec::new();
    let mut current: Option<String> = None;
    let mut i: usize = 0;
    assert(parse::views(names@) =~= packages_in(all, 0).0);
    while i < total
        invariant
            i <= total == lines@.len(),
            parse::views(lines@) == all,
            parse::views(names@) == packages_in(all, i as int).0,
            text::option_view(current) == packages_in(all, i as int).1,
        decreases total - i,
    {
        assert(all[i as int] == lines@[i as int]@);
        let line: String = parse::trim(lines[i].as_str());
        let ghost earlier = names@;
        match strip_prefix(line.as_str(), "Published Name:") {
            Some(rest) => {
                current = Some(parse::trim(rest.as_str()));
            },
            None => {
                if let Some(name) = &current {
                    if mentions(line.as_str()) && !holds(&names, name.as_str()) {
                        let found: String = text::copy(name.as_str());
                        names.push(found);
                        assert(parse::views(names@) =~= parse::views(earlier).push(found@));
                    }
                }
            },
        }
        i = i + 1;
    }
    assert(all.len() == lines@.len());
    names
}

/// The command that removes device `id`.
pub fn remove_device(id: &str) -> (c: Command)
    ensures
        c@ == (CommandView {
            program: "pnputil"@,
            args: seq!["/remove-device"@, id@],
            on_failure: OnFailure::Warn,
        }),
{
    let c: Command = commands::command("pnputil", vec!["/remove-device", id], OnFailure::Warn);
    assert(c@.args =~= seq!["/remove-device"@, id@]);
    c
}

/// The command that takes package `name` out of the system's store.
pub fn delete_driver(name: &str) -> (c: Command)
    ensures
        c@ == (CommandView {
            program: "pnputil"@,
            args: seq!["/delete-driver"@, name@, "/uninstall"@, "/force"@],
            on_failure: OnFailure::Warn,
        }),
{
    let c: Command = commands::command(
        "pnputil",
        vec!["/delete-driver", name, "/uninstall", "/force"],
        OnFailure::Warn,
    );
    assert(c@.args =~= seq!["/delete-driver"@, name@, "/uninstall"@, "/force"@]);
    c
}

/// Whether the system still lists a device of the driver.
pub fn still_listed(printed: &str) -> (listed: bool)
    ensures
        listed == mentions_driver(printed@),
{
    mentions(printed)
}

/// Whether the driver is on the machine, by what the system lists in lower case: its
/// description alone could be another vendor's.
pub open spec fn lists_driver(lower: Seq<char>) -> bool {
    text::occurs(lower, "virtual display driver"@) && text::occurs(lower, "mikethetech"@)
}

pub fn listed_in(lower: &str) -> (present: bool)
    ensures
        present == lists_driver(lower@),
{
    text::contains(lower, "virtual display driver") && text::contains(lower, "mikethetech")
}

/// Whether the driver is on the machine, by what the system lists, where it lists
/// anything.
pub fn vdd_device_present(printed: Option<&str>) -> (present: bool)
    ensures
        present == (printed matches Some(p) && lists_driver(text::lowercase_of(p@))),
{
    match printed {
        Some(p) => {
            let lower: String = text::lowercase(p);
            listed_in(lower.as_str())
        },
        None => false,
    }
}

/// Every device that is removed is one of the driver.
pub proof fn law_only_driver_devices_go(lines: Seq<Seq<char>>, n: int, i: int)
    requires
        0 <= i < devices_in(lines, n).len(),
    ensures
        mentions_driver(devices_in(lines, n)[i]),
    decreases n,
{
    if n > 0 {
        if i < devices_in(lines, n - 1).len() {
            law_only_driver_devices_go(lines, n - 1, i);
        }
    }
}

/// No package is deleted twice.
pub proof fn law_packages_go_once(lines: Seq<Seq<char>>, n: int)
    ensures
        packages_in(lines, n).0.no_duplicates(),
    decreases n,
{
    if n > 0 {
        law_packages_go_once(lines, n - 1);
    }
}

/// The size that the managed display is given is one that it offers.
pub proof fn law_managed_size_is_offered()
    ensures
        sizes().contains(
            DisplaySize {
                width: crate::agent::display_manager::MANAGED_WIDTH,
                height: crate::agent::display_manager::MANAGED_HEIGHT,
            },
        ),
{
    assert(sizes()[13].width == 1920 && sizes()[13].height == 1080);
}

/// Installing the driver worked exactly if its tool says so with one of two codes, one of
/// which asks for a restart.
pub proof fn law_driver_codes(code: Option<i32>, outcome: DriverInstall)
    requires
        call_ensures(judge_install, (code,), outcome),
    ensures
        outcome is Installed <==> code == Some(0i32) || code == Some(3010i32),
        outcome matches DriverInstall::Installed { reboot } ==> (reboot <==> code == Some(3010i32)),
        outcome matches DriverInstall::Failed { code: c } ==> (code is Some ==> code == Some(c))
            && (code is None ==> c == -1),
{
}

proof fn lemma_device_is_found(lines: Seq<Seq<char>>, n: int, i: int)
    requires
        0 <= i < n <= lines.len(),
        device_in(lines[i]) is Some,
    ensures
        devices_in(lines, n).contains(device_in(lines[i])->0),
    decreases n,
{
    if i == n - 1 {
        let before = devices_in(lines, n - 1);
        let id = device_in(lines[i])->0;
        assert(before.push(id)[before.len() as int] == id);
    } else {
        lemma_device_is_found(lines, n - 1, i);
        let before = devices_in(lines, n - 1);
        let id = device_in(lines[i])->0;
        let k = choose|k: int| 0 <= k < before.len() && before[k] == id;
        assert(devices_in(lines, n)[k] == id);
    }
}

/// No device of the driver is overlooked: one that a line names by itself is among those
/// that are removed.
pub proof fn law_every_driver_device_goes(
    printed: &str,
    ids: Vec<String>,
    id: Seq<char>,
    i: int,
)
    requires
        call_ensures(driver_devices, (printed,), ids),
        0 <= i < parse::pieces(printed@, '\n').len(),
        parse::trimmed(parse::pieces(printed@, '\n')[i]) == "Instance ID:"@ + id,
        text::occurs(text::lowered(parse::trimmed(id)), "mttvdd"@),
    ensures
        parse::views(ids@).contains(parse::trimmed(id)),
{
    let lines = parse::pieces(printed@, '\n');
    let line = parse::trimmed(lines[i]);
    let prefix = "Instance ID:"@;
    assert(line.take(prefix.len() as int) =~= prefix);
    assert(line.skip(prefix.len() as int) =~= id);
    lemma_device_is_found(lines, lines.len() as int, i);
}

proof fn lemma_package_stays(lines: Seq<Seq<char>>, m: int, n: int, name: Seq<char>)
    requires
        0 <= m <= n,
        packages_in(lines, m).0.contains(name),
    ensures
        packages_in(lines, n).0.contains(name),
    decreases n,
{
    if m < n {
        lemma_package_stays(lines, m, n - 1, name);
        let before = packages_in(lines, n - 1).0;
        let k = choose|k: int| 0 <= k < before.len() && before[k] == name;
        assert(packages_in(lines, n).0[k] == name);
    }
}

/// A package whose name is followed at once by a line that speaks of the driver is among
/// those that are deleted.
pub proof fn law_named_package_goes(lines: Seq<Seq<char>>, n: int, i: int, name: Seq<char>)
    requires
        0 <= i,
        i + 1 < n <= lines.len(),
        parse::trimmed(lines[i]) == "Published Name:"@ + name,
        after_prefix(parse::trimmed(lines[i + 1]), "Published Name:"@) is None,
        text::occurs(text::lowered(parse::trimmed(lines[i + 1])), "mttvdd"@),
    ensures
        packages_in(lines, n).0.contains(parse::trimmed(name)),
{
    let line = parse::trimmed(lines[i]);
    let prefix = "Published Name:"@;
    assert(line.take(prefix.len() as int) =~= prefix);
    assert(line.skip(prefix.len() as int) =~= name);
    assert(packages_in(lines, i + 1).1 == Some(parse::trimmed(name)));
    let before = packages_in(lines, i + 1).0;
    let after = packages_in(lines, i + 2).0;
    if !before.contains(parse::trimmed(name)) {
        assert(after == before.push(parse::trimmed(name)));
        assert(after[before.len() as int] == parse::trimmed(name));
    }
    lemma_package_stays(lines, i + 2, n, parse::trimmed(name));
}

/// The sizes on offer grow, by width and then by height, so that each is there once, and
/// none is larger than a full HD picture.
pub proof fn law_sizes_grow(list: Vec<DisplaySize>)
    requires
        call_ensures(all_sizes, (), list),
    ensures
        list@.len() == 14,
        forall|i: int|
            0 <= i < 13 ==> (#[trigger] list@[i]).width < list@[i + 1].width || (list@[i].width
                == list@[i + 1].width && list@[i].height < list@[i + 1].height),
        forall|i: int|
            0 <= i < 14 ==> 640 <= (#[trigger] list@[i]).width <= 1920 && 480 <= list@[i].height
                <= 1200,
        list@[0] == (DisplaySize { width: 640, height: 480 }),
        list@.last() == (DisplaySize { width: 1920, height: 1080 }),
{
}

} // verus!
