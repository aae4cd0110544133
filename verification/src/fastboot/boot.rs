//! Boot hardware partitions, and partitions that the device finds by name, over fastboot.
use vstd::prelude::*;

use super::command::Command;
use crate::boot_image;
use crate::error;
use crate::error::Error;
use crate::text;

verus! {

/// One item of a fixed sequence of operations, which ends early when one of them fails.
pub enum ScriptItem {
    /// Run a command that has to come back OKAY.
    Run(Command),
    Download { data: Vec<u8> },
    /// Tell whoever listens that all bytes are done.
    Report,
}

/// The name of a boot hardware partition.
pub open spec fn hwpart_name(hwpart: u8) -> Seq<char> {
    if hwpart == 1 {
        "mmc0boot0"@
    } else {
        "mmc0boot1"@
    }
}

/// Whether an item flashes the named partition.
pub open spec fn flashes(item: ScriptItem, name: Seq<char>) -> bool {
    item matches ScriptItem::Run(Command::Flash { partition }) && partition@ == name
}

/// Whether an item downloads the given data.
pub open spec fn downloads(item: ScriptItem, data: Seq<u8>) -> bool {
    item matches ScriptItem::Download { data: sent } && sent@ == data
}

/// Writes a prepared image to a boot hardware partition, and then selects the user area again. An image with content
/// past what the partition holds is refused.
pub fn write_boot_hwpart(hwpart: u8, image: &[u8]) -> (script: Result<Vec<ScriptItem>, Error>)
    ensures
        script is Ok <==> 1 <= hwpart <= 2 && boot_image::fits_hwpart(image@),
        script matches Ok(items) ==> {
            &&& items@.len() == 4
            &&& downloads(items@[0], boot_image::hwpart_part(image@))
            &&& flashes(items@[1], hwpart_name(hwpart))
            &&& items@[2] is Report
            &&& items@[3] == ScriptItem::Run(Command::SelectHwpart { hwpart: 0 })
            &&& items@[0] matches ScriptItem::Download { data } && data@ == boot_image::hwpart_part(image@)
            &&& items@[1] matches ScriptItem::Run(Command::Flash { partition }) && {
                &&& hwpart == 1 ==> partition@ == "mmc0boot0"@
                &&& hwpart == 2 ==> partition@ == "mmc0boot1"@
            }
        },
        script matches Err(e) ==> if !(1 <= hwpart <= 2) {
            error::is_invalid(e, "boot hwpart must be 1 or 2, got "@ + text::decimal(hwpart as nat))
        } else {
            error::is_invalid(e, boot_image::overflow_text())
        },
{
    if hwpart != 1 && hwpart != 2 {
        let mut shown = "boot hwpart must be 1 or 2, got ".to_owned();
        text::push_decimal(&mut shown, hwpart as u64);
        return Err(Error::InvalidOperation(shown));
    }
    let partition = if hwpart == 1 { "mmc0boot0".to_owned() } else { "mmc0boot1".to_owned() };
    let data = match boot_image::for_hwpart(image) {
        Ok(data) => data,
        Err(e) => {
            return Err(e);
        },
    };
    let mut items: Vec<ScriptItem> = Vec::new();
    items.push(ScriptItem::Download { data });
    items.push(ScriptItem::Run(Command::Flash { partition }));
    items.push(ScriptItem::Report);
    items.push(ScriptItem::Run(Command::SelectHwpart { hwpart: 0 }));
    Ok(items)
}

/// Whether an image of `size` bytes can be flashed by name: it has to fit the download buffer in one piece.
pub fn check_by_name(name: &str, size: usize, limit: usize) -> (checked: Result<(), Error>)
    ensures
        checked is Ok <==> size <= limit,
        checked matches Err(e) ==> error::is_invalid(
            e,
            name@ + " is "@ + text::decimal(size as nat) + " bytes, larger than the device's "@ + text::decimal(
                limit as nat,
            ) + "-byte download buffer; it needs to be a sparse image"@,
        ),
{
    if size > limit {
        let mut shown = name.to_owned();
        shown.append(" is ");
        text::push_decimal(&mut shown, size as u64);
        shown.append(" bytes, larger than the device's ");
        text::push_decimal(&mut shown, limit as u64);
        shown.append("-byte download buffer; it needs to be a sparse image");
        return Err(Error::InvalidOperation(shown));
    }
    Ok(())
}

/// Flashes a partition that the device finds by its own name.
pub fn write_by_name(name: &str, data: Vec<u8>) -> (script: Vec<ScriptItem>)
    ensures
        script@.len() == 3,
        downloads(script@[0], data@),
        flashes(script@[1], name@),
        script@[2] is Report,
        script@[0] matches ScriptItem::Download { data: sent } && sent@ == data@,
        script@[1] matches ScriptItem::Run(Command::Flash { partition }) && partition@ == name@,
{
    let mut items: Vec<ScriptItem> = Vec::new();
    items.push(ScriptItem::Download { data });
    items.push(ScriptItem::Run(Command::Flash { partition: name.to_owned() }));
    items.push(ScriptItem::Report);
    items
}

/// The boot hardware partitions go by their names. What a script downloads and flashes is the data and the partition
/// that it holds, and nothing else is.
pub proof fn hwparts_have_their_names(item: ScriptItem, name: Seq<char>, data: Seq<u8>)
    ensures
        hwpart_name(1) == "mmc0boot0"@,
        hwpart_name(2) == "mmc0boot1"@,
        flashes(item, name) <==> (item matches ScriptItem::Run(Command::Flash { partition }) && partition@ == name),
        downloads(item, data) <==> (item matches ScriptItem::Download { data: sent } && sent@ == data),
{
}

} // verus!
