//! Waybar output for earthquake data: the bar text and the tooltip.
//!
//! The display receives each quake with its measured numbers already
//! written out (one decimal place for magnitude, local MMI and depth; none
//! for distance) and whether it is the one to highlight, plus one clock
//! reading and the local UTC offset for the batch; everything else about
//! the text is decided here.

use vstd::prelude::*;
use vstd::string::*;

use super::clock::{
    current_stamp, format_time_at, local_offset_seconds, possible_local_offset,
    spec_quake_time_text, spec_stamp_text, stamp_at,
};
use super::formatting::{
    day_band_header, format_quality, geonet_mmi_aside, spec_day_band_header, spec_format_quality,
    spec_geonet_mmi_aside, spec_timestamp_footer, timestamp_footer_at,
};
use crate::domain::types::{
    whole_seconds_between, CompassDirection, DayBand, Mmi, QuakeQuality, QuakeTime,
};
use crate::text::{decimal, nat_to_decimal};

verus! {

/// Waybar JSON output: the bar text and its tooltip.
pub struct WaybarOutput {
    pub text: String,
    pub tooltip: String,
}

/// One quake as the display shows it.
pub struct QuakeSummary {
    /// When the quake happened.
    pub time: QuakeTime,
    /// Magnitude, one decimal place.
    pub magnitude: String,
    /// Local MMI estimate at the user's location, one decimal place.
    pub local_mmi: String,
    /// Depth in km, one decimal place.
    pub depth: String,
    /// Surface distance from the user in km, no decimal places.
    pub distance: String,
    /// Direction from the user to the epicenter.
    pub direction: CompassDirection,
    pub quality: QuakeQuality,
    /// GeoNet's own reported MMI, when it supplies one.
    pub geonet_mmi: Option<Mmi>,
    /// Whether this quake has the batch's highest local MMI.
    pub highlight: bool,
}

/// A scored and filtered batch as the display shows it, in display order.
pub struct QuakeDisplay {
    pub quakes: Vec<QuakeSummary>,
    /// The clock reading of this update: quake ages and the update stamp
    /// are taken at it.
    pub now: QuakeTime,
    /// The system's UTC offset in seconds, if known; times are shown in it
    /// (in UTC where it is unknown).
    pub local_offset: Option<i32>,
}

impl QuakeDisplay {
    /// A batch to be shown at the clock reading `now`, in the system's
    /// local time.
    pub fn new(quakes: Vec<QuakeSummary>, now: QuakeTime) -> (d: QuakeDisplay)
        ensures
            d.quakes@ == quakes@,
            d.now == now,
            possible_local_offset(d.local_offset),
    {
        QuakeDisplay { quakes, now, local_offset: local_offset_seconds() }
    }
}

/// The bar text when no quake is shown.
pub open spec fn spec_no_quakes_text() -> Seq<char> {
    "🌍 No recent earthquakes"@
}

/// The tooltip when no quake is shown.
pub open spec fn spec_no_quakes_tooltip() -> Seq<char> {
    "No recent earthquakes recorded"@
}

/// The tooltip's title line.
pub open spec fn spec_tooltip_title() -> Seq<char> {
    "Recent NZ Earthquakes (by day band):\n"@
}

/// Markup that highlights a line in green.
pub open spec fn spec_highlighted(line: Seq<char>) -> Seq<char> {
    "<span foreground=\"#00FF00\">"@ + line + "</span>"@
}

/// The day band of a quake at the clock reading `now`.
pub open spec fn spec_band_at(q: QuakeSummary, now: QuakeTime) -> DayBand {
    DayBand::spec_from_age_seconds(
        whole_seconds_between(q.time.spec_nanos() as int, now.spec_nanos() as int),
    )
}

/// Position `i` holds the latest quake: none is later, and none before it
/// is as late.
pub open spec fn is_latest(quakes: Seq<QuakeSummary>, i: int) -> bool {
    &&& 0 <= i < quakes.len()
    &&& forall|j: int| 0 <= j < quakes.len() ==> (#[trigger] quakes[j]).time.spec_nanos() <= quakes[i].time.spec_nanos()
    &&& forall|j: int| 0 <= j < i ==> (#[trigger] quakes[j]).time.spec_nanos() < quakes[i].time.spec_nanos()
}

/// The bar text: the latest quake's magnitude, local MMI, distance and
/// direction, and how many quakes there are.
pub open spec fn spec_display_text(quakes: Seq<QuakeSummary>) -> Seq<char> {
    if quakes.len() == 0 {
        spec_no_quakes_text()
    } else {
        let q = quakes[choose|i: int| is_latest(quakes, i)];
        "🌍 M"@ + q.magnitude@ + " MMI"@ + q.local_mmi@ + " "@ + q.distance@ + "km "@
            + q.direction.spec_as_str() + " ("@ + decimal(quakes.len() as int) + " quakes)"@
    }
}

/// A single earthquake's tooltip line with all details, its time shown at
/// `local_offset`.
pub open spec fn spec_earthquake_line(q: QuakeSummary, local_offset: Option<i32>) -> Seq<char> {
    "  📅 "@ + spec_quake_time_text(q.time.spec_nanos(), local_offset) + " | M"@ + q.magnitude@
        + " | MMI "@ + q.local_mmi@ + " local"@ + spec_geonet_mmi_aside(q.geonet_mmi)
        + " | 📏 "@ + q.depth@ + "km | "@ + spec_format_quality(q.quality)
        + q.direction.spec_as_str() + " "@ + q.distance@ + "km"@
}

/// The quake's line as the tooltip shows it, highlighted or not.
pub open spec fn spec_shown_line(q: QuakeSummary, local_offset: Option<i32>) -> Seq<char> {
    if q.highlight {
        spec_highlighted(spec_earthquake_line(q, local_offset))
    } else {
        spec_earthquake_line(q, local_offset)
    }
}

/// The tooltip lines for the quake at position `i`: a band header when its
/// band differs from the previous quake's (or it is the first), then its
/// line.
pub open spec fn spec_quake_lines(
    quakes: Seq<QuakeSummary>,
    now: QuakeTime,
    local_offset: Option<i32>,
    i: int,
) -> Seq<Seq<char>> {
    let q = quakes[i];
    if i == 0 || spec_band_at(quakes[i - 1], now) != spec_band_at(q, now) {
        seq![spec_day_band_header(spec_band_at(q, now)), spec_shown_line(q, local_offset)]
    } else {
        seq![spec_shown_line(q, local_offset)]
    }
}

/// The tooltip lines for the first `n` quakes.
pub open spec fn spec_body_lines(
    quakes: Seq<QuakeSummary>,
    now: QuakeTime,
    local_offset: Option<i32>,
    n: nat,
) -> Seq<Seq<char>>
    decreases n,
{
    if n == 0 {
        Seq::empty()
    } else {
        spec_body_lines(quakes, now, local_offset, (n - 1) as nat) + spec_quake_lines(
            quakes,
            now,
            local_offset,
            n - 1,
        )
    }
}

/// Lines joined with a newline between each two.
pub open spec fn join_lines(lines: Seq<Seq<char>>) -> Seq<char>
    decreases lines.len(),
{
    if lines.len() == 0 {
        Seq::empty()
    } else if lines.len() == 1 {
        lines[0]
    } else {
        join_lines(lines.drop_last()) + "\n"@ + lines.last()
    }
}

/// The tooltip: the title, each day band's header above its quakes, and the
/// update trailer stamped with the clock reading, one per line.
pub open spec fn spec_tooltip(quakes: Seq<QuakeSummary>, now: QuakeTime, local_offset: Option<i32>) -> Seq<char> {
    if quakes.len() == 0 {
        spec_no_quakes_tooltip()
    } else {
        join_lines(
            seq![spec_tooltip_title()] + spec_body_lines(quakes, now, local_offset, quakes.len())
                + seq![spec_timestamp_footer(spec_stamp_text(now.spec_nanos(), local_offset))],
        )
    }
}

/// The tooltip when earthquake data is unavailable.
pub open spec fn spec_error_tooltip(error: Seq<char>, attempted_at: Seq<char>) -> Seq<char> {
    "Unable to fetch earthquake data\n\nError: "@ + error + "\nService: GeoNet API\n\nLast attempt: "@
        + attempted_at
}

/// The bar text when earthquake data is unavailable.
pub open spec fn spec_error_text() -> Seq<char> {
    "🌍 -- Earthquake data unavailable"@
}

proof fn lemma_join_push(lines: Seq<Seq<char>>, line: Seq<char>)
    requires
        lines.len() >= 1,
    ensures
        join_lines(lines.push(line)) == join_lines(lines) + "\n"@ + line,
{
    assert(lines.push(line).drop_last() =~= lines);
}

/// Format a single earthquake line with all details, its time shown at
/// `local_offset`.
pub fn format_earthquake_line(q: &QuakeSummary, local_offset: Option<i32>) -> (s: String)
    ensures
        s@ == spec_earthquake_line(*q, local_offset),
{
    let mut s = String::from_str("  📅 ");
    s.append(format_time_at(&q.time, local_offset).as_str());
    s.append(" | M");
    s.append(q.magnitude.as_str());
    s.append(" | MMI ");
    s.append(q.local_mmi.as_str());
    s.append(" local");
    s.append(geonet_mmi_aside(q.geonet_mmi).as_str());
    s.append(" | 📏 ");
    s.append(q.depth.as_str());
    s.append("km | ");
    s.append(format_quality(q.quality).as_str());
    s.append(q.direction.as_str());
    s.append(" ");
    s.append(q.distance.as_str());
    s.append("km");
    s
}

/// Position of the latest quake (the first of them, where several share
/// the latest time).
pub fn latest_position(quakes: &Vec<QuakeSummary>) -> (i: usize)
    requires
        quakes.len() > 0,
    ensures
        is_latest(quakes@, i as int),
{
    let mut best: usize = 0;
    let mut j: usize = 1;
    while j < quakes.len()
        invariant
            0 < j <= quakes.len(),
            best < j,
            forall|k: int| 0 <= k < j ==> (#[trigger] quakes@[k]).time.spec_nanos() <= quakes@[best as int].time.spec_nanos(),
            forall|k: int| 0 <= k < best ==> (#[trigger] quakes@[k]).time.spec_nanos() < quakes@[best as int].time.spec_nanos(),
        decreases quakes.len() - j,
    {
        if quakes[j].time.unix_timestamp_nanos() > quakes[best].time.unix_timestamp_nanos() {
            best = j;
        }
        j = j + 1;
    }
    best
}

proof fn lemma_latest_unique(quakes: Seq<QuakeSummary>, i: int, j: int)
    requires
        is_latest(quakes, i),
        is_latest(quakes, j),
    ensures
        i == j,
{
    if i < j {
        assert(quakes[i].time.spec_nanos() < quakes[j].time.spec_nanos());
        assert(quakes[i].time.spec_nanos() <= quakes[j].time.spec_nanos());
        assert(quakes[j].time.spec_nanos() <= quakes[i].time.spec_nanos());
    } else if j < i {
        assert(quakes[j].time.spec_nanos() < quakes[i].time.spec_nanos());
        assert(quakes[i].time.spec_nanos() <= quakes[j].time.spec_nanos());
    }
}

/// The bar text shows one quake, the latest: its magnitude, local MMI,
/// distance and direction all come from that quake, followed by the number
/// of quakes in the batch.
pub proof fn law_bar_text_of_latest(quakes: Seq<QuakeSummary>, i: int)
    requires
        is_latest(quakes, i),
    ensures
        spec_display_text(quakes) == "🌍 M"@ + quakes[i].magnitude@ + " MMI"@ + quakes[i].local_mmi@
            + " "@ + quakes[i].distance@ + "km "@ + quakes[i].direction.spec_as_str() + " ("@
            + decimal(quakes.len() as int) + " quakes)"@,
{
    let c = choose|j: int| is_latest(quakes, j);
    lemma_latest_unique(quakes, c, i);
}

/// Only the latest quake and the count decide the bar text: two batches of
/// the same size whose latest quakes carry the same figures show the same
/// text, whatever their other quakes are.
pub proof fn law_bar_text_ignores_earlier_quakes(
    a: Seq<QuakeSummary>,
    b: Seq<QuakeSummary>,
    i: int,
    j: int,
)
    requires
        is_latest(a, i),
        is_latest(b, j),
        a.len() == b.len(),
        a[i].magnitude@ == b[j].magnitude@,
        a[i].local_mmi@ == b[j].local_mmi@,
        a[i].distance@ == b[j].distance@,
        a[i].direction == b[j].direction,
    ensures
        spec_display_text(a) == spec_display_text(b),
{
    law_bar_text_of_latest(a, i);
    law_bar_text_of_latest(b, j);
}

/// The tooltip body grows quake by quake: quake `i` adds a header for its
/// band exactly when it is the first quake or its band differs from the
/// band of the quake before it, then its own line.
pub proof fn law_tooltip_header_on_band_change(
    quakes: Seq<QuakeSummary>,
    now: QuakeTime,
    local_offset: Option<i32>,
    i: int,
)
    requires
        0 <= i < quakes.len(),
    ensures
        (i == 0 || spec_band_at(quakes[i - 1], now) != spec_band_at(quakes[i], now))
            ==> spec_body_lines(quakes, now, local_offset, (i + 1) as nat) == spec_body_lines(
            quakes,
            now,
            local_offset,
            i as nat,
        ).push(spec_day_band_header(spec_band_at(quakes[i], now))).push(
            spec_shown_line(quakes[i], local_offset),
        ),
        (i > 0 && spec_band_at(quakes[i - 1], now) == spec_band_at(quakes[i], now))
            ==> spec_body_lines(quakes, now, local_offset, (i + 1) as nat) == spec_body_lines(
            quakes,
            now,
            local_offset,
            i as nat,
        ).push(spec_shown_line(quakes[i], local_offset)),
{
    let prev = spec_body_lines(quakes, now, local_offset, i as nat);
    assert(spec_body_lines(quakes, now, local_offset, (i + 1) as nat) == prev + spec_quake_lines(
        quakes,
        now,
        local_offset,
        i,
    ));
    let h = spec_day_band_header(spec_band_at(quakes[i], now));
    let l = spec_shown_line(quakes[i], local_offset);
    assert(prev + seq![h, l] =~= prev.push(h).push(l));
    assert(prev + seq![l] =~= prev.push(l));
}

/// A batch whose quakes all share one day band gets exactly one header,
/// first, followed by each quake's line in order.
pub proof fn law_tooltip_one_header_per_band(
    quakes: Seq<QuakeSummary>,
    now: QuakeTime,
    local_offset: Option<i32>,
    n: nat,
)
    requires
        0 < n <= quakes.len(),
        forall|k: int| 0 <= k < n ==> spec_band_at(#[trigger] quakes[k], now) == spec_band_at(quakes[0], now),
    ensures
        spec_body_lines(quakes, now, local_offset, n) == seq![
            spec_day_band_header(spec_band_at(quakes[0], now)),
        ] + Seq::new(n, |k: int| spec_shown_line(quakes[k], local_offset)),
    decreases n,
{
    let h = spec_day_band_header(spec_band_at(quakes[0], now));
    if n == 1 {
        law_tooltip_header_on_band_change(quakes, now, local_offset, 0);
        assert(spec_body_lines(quakes, now, local_offset, 0) =~= Seq::empty());
        assert(seq![h] + Seq::new(1, |k: int| spec_shown_line(quakes[k], local_offset)) =~= Seq::<
            Seq<char>,
        >::empty().push(h).push(spec_shown_line(quakes[0], local_offset)));
    } else {
        law_tooltip_one_header_per_band(quakes, now, local_offset, (n - 1) as nat);
        assert(spec_band_at(quakes[n - 2], now) == spec_band_at(quakes[0], now));
        assert(spec_band_at(quakes[n - 1], now) == spec_band_at(quakes[0], now));
        law_tooltip_header_on_band_change(quakes, now, local_offset, n - 1);
        assert((seq![h] + Seq::new((n - 1) as nat, |k: int| spec_shown_line(quakes[k], local_offset))).push(
            spec_shown_line(quakes[n - 1], local_offset),
        ) =~= seq![h] + Seq::new(n, |k: int| spec_shown_line(quakes[k], local_offset)));
    }
}

/// Formatter for creating Waybar output from earthquake data.
pub struct WaybarFormatter;

impl Default for WaybarFormatter {
    fn default() -> (f: WaybarFormatter)
        ensures
            f == WaybarFormatter,
    {
        WaybarFormatter::new()
    }
}

impl WaybarFormatter {
    pub fn new() -> (f: WaybarFormatter)
        ensures
            f == WaybarFormatter,
    {
        WaybarFormatter
    }

    /// Format earthquake data into Waybar output.
    pub fn format(&self, data: &QuakeDisplay) -> (out: WaybarOutput)
        ensures
            out.text@ == spec_display_text(data.quakes@),
            out.tooltip@ == spec_tooltip(data.quakes@, data.now, data.local_offset),
    {
        let text = self.format_display_text(data);
        let tooltip = self.format_tooltip(data);
        WaybarOutput { text, tooltip }
    }

    /// Output for display when earthquake data is unavailable, stamped with
    /// the current local time. Infallible: this is the fallback when
    /// everything else has failed, and Waybar needs valid output from every
    /// run.
    pub fn create_error_output(error: &str) -> (out: WaybarOutput)
        ensures
            out.text@ == spec_error_text(),
            exists|now: QuakeTime, local_offset: Option<i32>|
                possible_local_offset(local_offset) && out.tooltip@ == spec_error_tooltip(
                    error@,
                    spec_stamp_text(now.spec_nanos(), local_offset),
                ),
    {
        let stamp = current_stamp();
        Self::error_output_at(error, stamp.as_str())
    }

    /// Output for display when earthquake data is unavailable, given the
    /// error's message and the time of the failed attempt as text.
    pub fn error_output_at(error: &str, attempted_at: &str) -> (out: WaybarOutput)
        ensures
            out.text@ == spec_error_text(),
            out.tooltip@ == spec_error_tooltip(error@, attempted_at@),
    {
        let text = String::from_str("🌍 -- Earthquake data unavailable");
        let mut tooltip = String::from_str("Unable to fetch earthquake data\n\nError: ");
        tooltip.append(error);
        tooltip.append("\nService: GeoNet API\n\nLast attempt: ");
        tooltip.append(attempted_at);
        WaybarOutput { text, tooltip }
    }

    /// The main display text: the icon and the latest earthquake, or none.
    pub fn format_display_text(&self, data: &QuakeDisplay) -> (s: String)
        ensures
            s@ == spec_display_text(data.quakes@),
    {
        if data.quakes.len() == 0 {
            return String::from_str("🌍 No recent earthquakes");
        }
        let count = data.quakes.len();
        let latest = latest_position(&data.quakes);
        proof {
            let c = choose|i: int| is_latest(data.quakes@, i);
            lemma_latest_unique(data.quakes@, c, latest as int);
        }
        let q = &data.quakes[latest];
        let mut s = String::from_str("🌍 M");
        s.append(q.magnitude.as_str());
        s.append(" MMI");
        s.append(q.local_mmi.as_str());
        s.append(" ");
        s.append(q.distance.as_str());
        s.append("km ");
        s.append(q.direction.as_str());
        s.append(" (");
        s.append(nat_to_decimal(count as u64).as_str());
        s.append(" quakes)");
        s
    }

    /// The detailed tooltip: quakes grouped under day-band headers, the top
    /// one highlighted, and the update trailer.
    pub fn format_tooltip(&self, data: &QuakeDisplay) -> (s: String)
        ensures
            s@ == spec_tooltip(data.quakes@, data.now, data.local_offset),
    {
        let quakes = &data.quakes;
        if quakes.len() == 0 {
            return String::from_str("No recent earthquakes recorded");
        }
        let now = &data.now;
        let local_offset = data.local_offset;
        let mut out = String::from_str("Recent NZ Earthquakes (by day band):\n");
        let ghost title = seq![spec_tooltip_title()];
        let mut previous_band = DayBand::Today;
        let mut i: usize = 0;
        while i < quakes.len()
            invariant
                i <= quakes.len(),
                title == seq![spec_tooltip_title()],
                quakes@ == data.quakes@,
                *now == data.now,
                local_offset == data.local_offset,
                i > 0 ==> previous_band == spec_band_at(quakes@[i - 1], *now),
                out@ == join_lines(title + spec_body_lines(quakes@, *now, local_offset, i as nat)),
            decreases quakes.len() - i,
        {
            let q = &quakes[i];
            let ghost before = title + spec_body_lines(quakes@, *now, local_offset, i as nat);
            let ghost shown = spec_shown_line(quakes@[i as int], local_offset);
            let band = q.time.day_band_at(now);
            let line = format_earthquake_line(q, local_offset);
            let shown_line = if q.highlight {
                let mut h = String::from_str("<span foreground=\"#00FF00\">");
                h.append(line.as_str());
                h.append("</span>");
                h
            } else {
                line
            };
            assert(shown_line@ == shown);
            if i == 0 || previous_band != band {
                let ghost header = spec_day_band_header(band);
                out.append("\n");
                out.append(day_band_header(band));
                out.append("\n");
                out.append(shown_line.as_str());
                proof {
                    lemma_join_push(before, header);
                    lemma_join_push(before.push(header), shown);
                    assert(spec_quake_lines(quakes@, *now, local_offset, i as int) == seq![
                        header,
                        shown,
                    ]);
                    assert(title + spec_body_lines(quakes@, *now, local_offset, (i + 1) as nat)
                        =~= before.push(header).push(shown));
                }
            } else {
                out.append("\n");
                out.append(shown_line.as_str());
                proof {
                    lemma_join_push(before, shown);
                    assert(spec_quake_lines(quakes@, *now, local_offset, i as int) == seq![shown]);
                    assert(title + spec_body_lines(quakes@, *now, local_offset, (i + 1) as nat)
                        =~= before.push(shown));
                }
            }
            previous_band = band;
            i = i + 1;
        }
        let ghost body = title + spec_body_lines(quakes@, *now, local_offset, quakes.len() as nat);
        let ghost footer_text = spec_timestamp_footer(spec_stamp_text(now.spec_nanos(), local_offset));
        let footer = timestamp_footer_at(stamp_at(now, local_offset).as_str());
        out.append("\n");
        out.append(footer.as_str());
        proof {
            lemma_join_push(body, footer_text);
            assert(body.push(footer_text) =~= title + spec_body_lines(
                quakes@,
                *now,
                local_offset,
                quakes.len() as nat,
            ) + seq![footer_text]);
        }
        out
    }
}

} // verus!
