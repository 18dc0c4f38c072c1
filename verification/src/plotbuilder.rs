//! **plotbuilder** provides the `struct`s that organize the plot data, plus some helper functions.
//!
//! It is recommended to use `PlotBuilder2D::simple_xy` rather than manually
//! instantiating the `PlotBuilder2D` struct, but feel free to approach this in
//! the most ergonomic fashion for you.

use std::sync::Arc;
use vstd::prelude::*;
use vstd::string::StringExecFns;

verus! {

/// How one series is drawn: as a connected line, as dots, or as both.
#[derive(Clone, Copy, PartialEq, Eq, Structural, Debug)]
pub enum PlotStyle {
    OnlyLines,
    OnlyDots,
    LinesAndDots,
}

/// The capability of one renderable series: report its draw style, and report
/// its color together with its ordered point sequence. `T` is the coordinate
/// scalar and `C` the color component; the renderer instantiates both with its
/// numeric types. The `Send + Sync` bound is what lets a series be shared
/// read-only with a rendering thread: a series exposes no mutation after
/// construction, so concurrent reads are safe by construction.
pub trait PlotData<T, C>: Send + Sync {
    /// The draw style the series reports.
    spec fn style_spec(&self) -> PlotStyle;

    /// The color the series reports.
    spec fn color_spec(&self) -> [C; 4];

    /// The ordered point sequence the series reports; insertion order is draw
    /// order.
    spec fn points_spec(&self) -> Seq<(T, T)>;

    fn get_style(&self) -> (r: &PlotStyle)
        ensures
            *r == self.style_spec(),
    ;

    fn get_plot(&self) -> (r: (&[C; 4], &Vec<(T, T)>))
        ensures
            *r.0 == self.color_spec(),
            r.1@ == self.points_spec(),
    ;
}

/// One drawable series: an ordered point list, an RGBA color (each component
/// conventionally in `[0, 1]`, unchecked) and a draw style. Immutable once
/// constructed and handed to a plot request.
pub struct ColoredPlot<T, C> {
    pub xy: Vec<(T, T)>,
    pub color: [C; 4],
    pub plot_style: PlotStyle,
}

impl<T: Send + Sync, C: Send + Sync> PlotData<T, C> for ColoredPlot<T, C> {
    open spec fn style_spec(&self) -> PlotStyle {
        self.plot_style
    }

    open spec fn color_spec(&self) -> [C; 4] {
        self.color
    }

    open spec fn points_spec(&self) -> Seq<(T, T)> {
        self.xy@
    }

    fn get_style(&self) -> (r: &PlotStyle) {
        &self.plot_style
    }

    fn get_plot(&self) -> (r: (&[C; 4], &Vec<(T, T)>)) {
        (&self.color, &self.xy)
    }
}

/// The closed set of series kinds a plot request can carry. Today the colored
/// point series is the only kind; bar and graph series are anticipated but not
/// implemented.
pub enum Series<T, C> {
    Colored(ColoredPlot<T, C>),
}

impl<T: Send + Sync, C: Send + Sync> PlotData<T, C> for Series<T, C> {
    open spec fn style_spec(&self) -> PlotStyle {
        match self {
            Series::Colored(c) => c.style_spec(),
        }
    }

    open spec fn color_spec(&self) -> [C; 4] {
        match self {
            Series::Colored(c) => c.color_spec(),
        }
    }

    open spec fn points_spec(&self) -> Seq<(T, T)> {
        match self {
            Series::Colored(c) => c.points_spec(),
        }
    }

    fn get_style(&self) -> (r: &PlotStyle) {
        match self {
            Series::Colored(c) => c.get_style(),
        }
    }

    fn get_plot(&self) -> (r: (&[C; 4], &Vec<(T, T)>)) {
        match self {
            Series::Colored(c) => c.get_plot(),
        }
    }
}

/// The path of the font used for any text when the caller sets none.
pub open spec fn default_font_path() -> Seq<char> {
    "/usr/share/fonts/truetype/freefont/FreeSans.ttf"@
}

/// `PlotBuilder2D` contains all the higher level info of the graph (like title
/// and labels). It is a plain aggregate: every field is public and may be
/// adjusted directly after construction. Cloning duplicates the shared series
/// references cheaply and copies the scalar and string fields.
#[derive(Clone)]
pub struct PlotBuilder2D<T, C> {
    /// **pvs** contains the actual graph values, shared read-only with the
    /// rendering thread.
    pub pvs: Vec<Arc<Series<T, C>>>,
    /// **min_x** optionally defines the lower x bound. If `None`, it will be auto determined.
    pub min_x: Option<T>,
    /// **max_x** optionally defines the upper x bound. If `None`, it will be auto determined.
    pub max_x: Option<T>,
    /// **min_y** optionally defines the lower y bound. If `None`, it will be auto determined.
    pub min_y: Option<T>,
    /// **max_y** optionally defines the upper y bound. If `None`, it will be auto determined.
    pub max_y: Option<T>,
    /// A string to label the x-axis. (not implemented)
    pub x_label: Option<String>,
    /// A string to label the y-axis. (not implemented)
    pub y_label: Option<String>,
    /// A string to label the chart. (not implemented)
    pub title: Option<String>,
    /// Whether or not to draw the y-axis. (not implemented)
    pub y_axis: bool,
    /// Whether or not to draw the gridlines on the y-axis. (not implemented)
    pub y_gridlines: bool,
    /// Whether or not to draw the x-axis. (not implemented)
    pub x_axis: bool,
    /// Whether or not to draw the gridlines on the x-axis. (not implemented)
    pub x_gridlines: bool,
    /// The font file to use for any text. (not implemented)
    pub font_path: String,
}

impl<T, C> PlotBuilder2D<T, C> {
    /// `simple_xy` reduces boilerplate by generating some basic defaults for
    /// the `PlotBuilder2D` struct: exactly one lines-only series holding the
    /// given points and color, every bound left to auto-determination, no
    /// labels, every axis and gridline flag on, and the default font. Once the
    /// struct is returned, it's easy enough to make adjustments.
    ///
    /// Adding a second series to an existing request is not implemented.
    pub fn simple_xy(xy: Vec<(T, T)>, color: [C; 4]) -> (r: PlotBuilder2D<T, C>)
        ensures
            r.pvs@.len() == 1,
            (r.pvs@[0] == Series::Colored(
                ColoredPlot { xy: xy, color: color, plot_style: PlotStyle::OnlyLines },
            )),
            r.min_x is None,
            r.max_x is None,
            r.min_y is None,
            r.max_y is None,
            r.x_label is None,
            r.y_label is None,
            r.title is None,
            r.y_axis,
            r.y_gridlines,
            r.x_axis,
            r.x_gridlines,
            r.font_path@ == default_font_path(),
    {
        let plot = ColoredPlot { xy: xy, color: color, plot_style: PlotStyle::OnlyLines };
        let mut pvs: Vec<Arc<Series<T, C>>> = Vec::new();
        pvs.push(Arc::new(Series::Colored(plot)));
        PlotBuilder2D {
            pvs: pvs,
            min_x: None,
            max_x: None,
            min_y: None,
            max_y: None,
            x_label: None,
            y_label: None,
            title: None,
            y_axis: true,
            y_gridlines: true,
            x_axis: true,
            x_gridlines: true,
            font_path: String::from_str("/usr/share/fonts/truetype/freefont/FreeSans.ttf"),
        }
    }
}

} // verus!
