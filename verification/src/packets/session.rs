//! The session record.
use crate::ids::{
    FormulaType, GameModeId, RulesetId, SessionLength, SessionType, TrackId, WeatherType,
};
use crate::packets::header::PacketHeader;
use crate::wire::{
    all_canonical, decode_array, encode_all, group_integer_widths, lemma_concat_assoc,
    lemma_concat_cancel, lemma_subrange_join, lemma_wire_array_injective, lemma_wire_array_len,
    same_bytes, wire_all, Float32, Wire,
};
use vstd::prelude::*;

verus! {

/// One marshal zone and the flag shown in it.
#[derive(Clone, Copy, Debug, PartialEq, Eq)]
pub struct MarshalZone {
    /// Fraction (0..1) of way through the lap the marshal zone starts.
    pub zone_start: Float32,
    /// -1 = invalid/unknown, 0 = none, 1 = green, 2 = blue, 3 = yellow, 4 = red.
    pub zone_flag: i8,
}

impl Wire for MarshalZone {
    open spec fn wire(&self) -> Seq<u8> {
        self.zone_start.wire() + self.zone_flag.wire()
    }

    open spec fn width() -> nat {
        5
    }

    open spec fn canonical(&self) -> bool {
        true
    }

    proof fn lemma_wire_len(&self) {
        broadcast use group_integer_widths;
    }

    proof fn lemma_wire_injective(&self, other: &Self) {
        broadcast use {lemma_concat_cancel, group_integer_widths};

        assert(same_bytes(self.wire(), other.wire()));
        self.zone_start.lemma_wire_injective(&other.zone_start);
        self.zone_flag.lemma_wire_injective(&other.zone_flag);
    }

    fn size() -> (n: usize) {
        5
    }

    fn decode(bytes: &[u8], at: usize) -> (value: Self) {
        broadcast use lemma_subrange_join;

        let zone_start: Float32 = Float32::decode(bytes, at);
        let zone_flag: i8 = i8::decode(bytes, at + 4);
        MarshalZone { zone_start, zone_flag }
    }

    fn encode(&self, out: &mut Vec<u8>) {
        broadcast use lemma_concat_assoc;

        self.zone_start.encode(out);
        self.zone_flag.encode(out);
    }
}

/// The weather expected at one moment of one session.
#[derive(Clone, Copy, Debug, PartialEq, Eq)]
pub struct WeatherForecastSample {
    pub session_type: SessionType,
    /// Time in minutes the forecast is for.
    pub time_offset: u8,
    pub weather: WeatherType,
    /// Track temp. in degrees Celsius.
    pub track_temperature: i8,
    /// Track temp. change - 0 = up, 1 = down, 2 = no change.
    pub track_temperature_change: i8,
    /// Air temp. in degrees celsius.
    pub air_temperature: i8,
    /// Air temp. change - 0 = up, 1 = down, 2 = no change.
    pub air_temperature_change: i8,
    /// Rain percentage (0-100).
    pub rain_percentage: u8,
}

impl Wire for WeatherForecastSample {
    open spec fn wire(&self) -> Seq<u8> {
        self.session_type.wire() + self.time_offset.wire() + self.weather.wire()
            + self.track_temperature.wire() + self.track_temperature_change.wire()
            + self.air_temperature.wire() + self.air_temperature_change.wire()
            + self.rain_percentage.wire()
    }

    open spec fn width() -> nat {
        8
    }

    open spec fn canonical(&self) -> bool {
        self.session_type.canonical() && self.weather.canonical()
    }

    proof fn lemma_wire_len(&self) {
    }

    proof fn lemma_wire_injective(&self, other: &Self) {
        broadcast use lemma_concat_cancel;

        assert(same_bytes(self.wire(), other.wire()));
        self.session_type.lemma_wire_injective(&other.session_type);
        self.time_offset.lemma_wire_injective(&other.time_offset);
        self.weather.lemma_wire_injective(&other.weather);
        self.track_temperature.lemma_wire_injective(&other.track_temperature);
        self.track_temperature_change.lemma_wire_injective(&other.track_temperature_change);
        self.air_temperature.lemma_wire_injective(&other.air_temperature);
        self.air_temperature_change.lemma_wire_injective(&other.air_temperature_change);
        self.rain_percentage.lemma_wire_injective(&other.rain_percentage);
    }

    fn size() -> (n: usize) {
        8
    }

    fn decode(bytes: &[u8], at: usize) -> (value: Self) {
        broadcast use lemma_subrange_join;

        let session_type: SessionType = SessionType::decode(bytes, at);
        let time_offset: u8 = u8::decode(bytes, at + 1);
        let weather: WeatherType = WeatherType::decode(bytes, at + 2);
        let track_temperature: i8 = i8::decode(bytes, at + 3);
        let track_temperature_change: i8 = i8::decode(bytes, at + 4);
        let air_temperature: i8 = i8::decode(bytes, at + 5);
        let air_temperature_change: i8 = i8::decode(bytes, at + 6);
        let rain_percentage: u8 = u8::decode(bytes, at + 7);
        WeatherForecastSample {
            session_type,
            time_offset,
            weather,
            track_temperature,
            track_temperature_change,
            air_temperature,
            air_temperature_change,
            rain_percentage,
        }
    }

    fn encode(&self, out: &mut Vec<u8>) {
        broadcast use lemma_concat_assoc;

        self.session_type.encode(out);
        self.time_offset.encode(out);
        self.weather.encode(out);
        self.track_temperature.encode(out);
        self.track_temperature_change.encode(out);
        self.air_temperature.encode(out);
        self.air_temperature_change.encode(out);
        self.rain_percentage.encode(out);
    }
}

/// The number of bytes the record takes, header included.
pub const SESSION_SIZE: usize = 632;

/// The state of the session: circuit, weather, time left, assists.
#[derive(Clone, Copy, Debug, PartialEq, Eq)]
pub struct PacketSessionData {
    pub header: PacketHeader,
    pub weather: WeatherType,
    /// Track temp. in degrees celsius.
    pub track_temperature: i8,
    /// Air temp. in degrees celsius.
    pub air_temperature: i8,
    /// Total number of laps in this race.
    pub total_laps: u8,
    /// Track length in metres.
    pub track_length: u16,
    pub session_type: SessionType,
    pub track_id: TrackId,
    pub formula: FormulaType,
    /// Time left in session in seconds.
    pub session_time_left: u16,
    /// Session duration in seconds.
    pub session_duration: u16,
    /// Pit speed limit in kilometres per hour.
    pub pit_speed_limit: u8,
    /// Whether the game is paused - network game only.
    pub game_paused: u8,
    /// Whether the player is spectating.
    pub is_spectating: u8,
    /// Index of the car being spectated.
    pub spectator_car_index: u8,
    /// SLI Pro support, 0 = inactive, 1 = active.
    pub sli_pro_native_support: u8,
    /// Number of marshal zones to follow.
    pub num_marshal_zones: u8,
    /// List of marshal zones - max 21.
    pub marshal_zones: [MarshalZone; 21],
    /// 0 = no safety car, 1 = full 2 = virtual, 3 = formation lap.
    pub safety_car_status: u8,
    /// 0 = offline, 1 = online.
    pub network_game: u8,
    /// Number of weather samples to follow.
    pub num_weather_forecast_samples: u8,
    /// Array of weather forecast samples.
    pub weather_forecast_samples: [WeatherForecastSample; 56],
    /// 0 = Perfect, 1 = Approximate.
    pub forecast_accuracy: u8,
    /// AI Difficulty rating - 0-110.
    pub ai_difficulty: u8,
    /// Identifier for season - persists across saves.
    pub season_link_identifier: u32,
    /// Identifier for weekend - persists across saves.
    pub weekend_link_identifier: u32,
    /// Identifier for session - persists across saves.
    pub session_link_identifier: u32,
    /// Ideal lap to pit on for current strategy (player).
    pub pit_stop_window_ideal_lap: u8,
    /// Latest lap to pit on for current strategy (player).
    pub pit_stop_window_latest_lap: u8,
    /// Predicted position to rejoin at (player).
    pub pit_stop_rejoin_position: u8,
    /// 0 = off, 1 = on.
    pub steering_assist: u8,
    /// 0 = off, 1 = low, 2 = medium, 3 = high.
    pub braking_assist: u8,
    /// 1 = manual, 2 = manual & suggested gear, 3 = auto.
    pub gearbox_assist: u8,
    /// 0 = off, 1 = on.
    pub pit_assist: u8,
    /// 0 = off, 1 = on.
    pub pit_release_assist: u8,
    /// 0 = off, 1 = on.
    pub ers_assist: u8,
    /// 0 = off, 1 = on.
    pub drs_assist: u8,
    /// 0 = off, 1 = corners only, 2 = full.
    pub dynamic_racing_line: u8,
    /// 0 = 2D, 1 = 3D.
    pub dynamic_racing_line_type: u8,
    pub game_mode: GameModeId,
    pub rule_set: RulesetId,
    /// Local time of day - minutes since midnight.
    pub time_of_day: u32,
    pub session_length: SessionLength,
}

impl Wire for PacketSessionData {
    open spec fn wire(&self) -> Seq<u8> {
        self.header.wire() + self.weather.wire() + self.track_temperature.wire()
            + self.air_temperature.wire() + self.total_laps.wire() + self.track_length.wire()
            + self.session_type.wire() + self.track_id.wire() + self.formula.wire()
            + self.session_time_left.wire() + self.session_duration.wire()
            + self.pit_speed_limit.wire() + self.game_paused.wire() + self.is_spectating.wire()
            + self.spectator_car_index.wire() + self.sli_pro_native_support.wire()
            + self.num_marshal_zones.wire() + wire_all(self.marshal_zones@)
            + self.safety_car_status.wire() + self.network_game.wire()
            + self.num_weather_forecast_samples.wire() + wire_all(self.weather_forecast_samples@)
            + self.forecast_accuracy.wire() + self.ai_difficulty.wire()
            + self.season_link_identifier.wire() + self.weekend_link_identifier.wire()
            + self.session_link_identifier.wire() + self.pit_stop_window_ideal_lap.wire()
            + self.pit_stop_window_latest_lap.wire() + self.pit_stop_rejoin_position.wire()
            + self.steering_assist.wire() + self.braking_assist.wire() + self.gearbox_assist.wire()
            + self.pit_assist.wire() + self.pit_release_assist.wire() + self.ers_assist.wire()
            + self.drs_assist.wire() + self.dynamic_racing_line.wire()
            + self.dynamic_racing_line_type.wire() + self.game_mode.wire() + self.rule_set.wire()
            + self.time_of_day.wire() + self.session_length.wire()
    }

    open spec fn width() -> nat {
        632
    }

    open spec fn canonical(&self) -> bool {
        self.header.canonical() && self.weather.canonical() && self.session_type.canonical()
            && self.track_id.canonical() && self.formula.canonical()
            && all_canonical(self.weather_forecast_samples@) && self.game_mode.canonical()
            && self.rule_set.canonical() && self.session_length.canonical()
    }

    proof fn lemma_wire_len(&self) {
        broadcast use group_integer_widths;

        self.header.lemma_wire_len();
        lemma_wire_array_len(&self.marshal_zones);
        lemma_wire_array_len(&self.weather_forecast_samples);
    }

    proof fn lemma_wire_injective(&self, other: &Self) {
        broadcast use {lemma_concat_cancel, group_integer_widths};

        assert(same_bytes(self.wire(), other.wire()));
        self.header.lemma_wire_len();
        other.header.lemma_wire_len();
        lemma_wire_array_len(&self.marshal_zones);
        lemma_wire_array_len(&other.marshal_zones);
        lemma_wire_array_len(&self.weather_forecast_samples);
        lemma_wire_array_len(&other.weather_forecast_samples);
        self.header.lemma_wire_injective(&other.header);
        self.weather.lemma_wire_injective(&other.weather);
        self.track_temperature.lemma_wire_injective(&other.track_temperature);
        self.air_temperature.lemma_wire_injective(&other.air_temperature);
        self.total_laps.lemma_wire_injective(&other.total_laps);
        self.track_length.lemma_wire_injective(&other.track_length);
        self.session_type.lemma_wire_injective(&other.session_type);
        self.track_id.lemma_wire_injective(&other.track_id);
        self.formula.lemma_wire_injective(&other.formula);
        self.session_time_left.lemma_wire_injective(&other.session_time_left);
        self.session_duration.lemma_wire_injective(&other.session_duration);
        self.pit_speed_limit.lemma_wire_injective(&other.pit_speed_limit);
        self.game_paused.lemma_wire_injective(&other.game_paused);
        self.is_spectating.lemma_wire_injective(&other.is_spectating);
        self.spectator_car_index.lemma_wire_injective(&other.spectator_car_index);
        self.sli_pro_native_support.lemma_wire_injective(&other.sli_pro_native_support);
        self.num_marshal_zones.lemma_wire_injective(&other.num_marshal_zones);
        lemma_wire_array_injective(&self.marshal_zones, &other.marshal_zones);
        self.safety_car_status.lemma_wire_injective(&other.safety_car_status);
        self.network_game.lemma_wire_injective(&other.network_game);
        self.num_weather_forecast_samples.lemma_wire_injective(&other.num_weather_forecast_samples);
        lemma_wire_array_injective(&self.weather_forecast_samples, &other.weather_forecast_samples);
        self.forecast_accuracy.lemma_wire_injective(&other.forecast_accuracy);
        self.ai_difficulty.lemma_wire_injective(&other.ai_difficulty);
        self.season_link_identifier.lemma_wire_injective(&other.season_link_identifier);
        self.weekend_link_identifier.lemma_wire_injective(&other.weekend_link_identifier);
        self.session_link_identifier.lemma_wire_injective(&other.session_link_identifier);
        self.pit_stop_window_ideal_lap.lemma_wire_injective(&other.pit_stop_window_ideal_lap);
        self.pit_stop_window_latest_lap.lemma_wire_injective(&other.pit_stop_window_latest_lap);
        self.pit_stop_rejoin_position.lemma_wire_injective(&other.pit_stop_rejoin_position);
        self.steering_assist.lemma_wire_injective(&other.steering_assist);
        self.braking_assist.lemma_wire_injective(&other.braking_assist);
        self.gearbox_assist.lemma_wire_injective(&other.gearbox_assist);
        self.pit_assist.lemma_wire_injective(&other.pit_assist);
        self.pit_release_assist.lemma_wire_injective(&other.pit_release_assist);
        self.ers_assist.lemma_wire_injective(&other.ers_assist);
        self.drs_assist.lemma_wire_injective(&other.drs_assist);
        self.dynamic_racing_line.lemma_wire_injective(&other.dynamic_racing_line);
        self.dynamic_racing_line_type.lemma_wire_injective(&other.dynamic_racing_line_type);
        self.game_mode.lemma_wire_injective(&other.game_mode);
        self.rule_set.lemma_wire_injective(&other.rule_set);
        self.time_of_day.lemma_wire_injective(&other.time_of_day);
        self.session_length.lemma_wire_injective(&other.session_length);
    }

    fn size() -> (n: usize) {
        SESSION_SIZE
    }

    fn decode(bytes: &[u8], at: usize) -> (value: Self) {
        broadcast use lemma_subrange_join;

        let header: PacketHeader = PacketHeader::decode(bytes, at);
        let weather: WeatherType = WeatherType::decode(bytes, at + 24);
        let track_temperature: i8 = i8::decode(bytes, at + 25);
        let air_temperature: i8 = i8::decode(bytes, at + 26);
        let total_laps: u8 = u8::decode(bytes, at + 27);
        let track_length: u16 = u16::decode(bytes, at + 28);
        let session_type: SessionType = SessionType::decode(bytes, at + 30);
        let track_id: TrackId = TrackId::decode(bytes, at + 31);
        let formula: FormulaType = FormulaType::decode(bytes, at + 32);
        let session_time_left: u16 = u16::decode(bytes, at + 33);
        let session_duration: u16 = u16::decode(bytes, at + 35);
        let pit_speed_limit: u8 = u8::decode(bytes, at + 37);
        let game_paused: u8 = u8::decode(bytes, at + 38);
        let is_spectating: u8 = u8::decode(bytes, at + 39);
        let spectator_car_index: u8 = u8::decode(bytes, at + 40);
        let sli_pro_native_support: u8 = u8::decode(bytes, at + 41);
        let num_marshal_zones: u8 = u8::decode(bytes, at + 42);
        let marshal_zones: [MarshalZone; 21] = decode_array(bytes, at + 43);
        let safety_car_status: u8 = u8::decode(bytes, at + 148);
        let network_game: u8 = u8::decode(bytes, at + 149);
        let num_weather_forecast_samples: u8 = u8::decode(bytes, at + 150);
        let weather_forecast_samples: [WeatherForecastSample; 56] = decode_array(bytes, at + 151);
        let forecast_accuracy: u8 = u8::decode(bytes, at + 599);
        let ai_difficulty: u8 = u8::decode(bytes, at + 600);
        let season_link_identifier: u32 = u32::decode(bytes, at + 601);
        let weekend_link_identifier: u32 = u32::decode(bytes, at + 605);
        let session_link_identifier: u32 = u32::decode(bytes, at + 609);
        let pit_stop_window_ideal_lap: u8 = u8::decode(bytes, at + 613);
        let pit_stop_window_latest_lap: u8 = u8::decode(bytes, at + 614);
        let pit_stop_rejoin_position: u8 = u8::decode(bytes, at + 615);
        let steering_assist: u8 = u8::decode(bytes, at + 616);
        let braking_assist: u8 = u8::decode(bytes, at + 617);
        let gearbox_assist: u8 = u8::decode(bytes, at + 618);
        let pit_assist: u8 = u8::decode(bytes, at + 619);
        let pit_release_assist: u8 = u8::decode(bytes, at + 620);
        let ers_assist: u8 = u8::decode(bytes, at + 621);
        let drs_assist: u8 = u8::decode(bytes, at + 622);
        let dynamic_racing_line: u8 = u8::decode(bytes, at + 623);
        let dynamic_racing_line_type: u8 = u8::decode(bytes, at + 624);
        let game_mode: GameModeId = GameModeId::decode(bytes, at + 625);
        let rule_set: RulesetId = RulesetId::decode(bytes, at + 626);
        let time_of_day: u32 = u32::decode(bytes, at + 627);
        let session_length: SessionLength = SessionLength::decode(bytes, at + 631);
        PacketSessionData {
            header,
            weather,
            track_temperature,
            air_temperature,
            total_laps,
            track_length,
            session_type,
            track_id,
            formula,
            session_time_left,
            session_duration,
            pit_speed_limit,
            game_paused,
            is_spectating,
            spectator_car_index,
            sli_pro_native_support,
            num_marshal_zones,
            marshal_zones,
            safety_car_status,
            network_game,
            num_weather_forecast_samples,
            weather_forecast_samples,
            forecast_accuracy,
            ai_difficulty,
            season_link_identifier,
            weekend_link_identifier,
            session_link_identifier,
            pit_stop_window_ideal_lap,
            pit_stop_window_latest_lap,
            pit_stop_rejoin_position,
            steering_assist,
            braking_assist,
            gearbox_assist,
            pit_assist,
            pit_release_assist,
            ers_assist,
            drs_assist,
            dynamic_racing_line,
            dynamic_racing_line_type,
            game_mode,
            rule_set,
            time_of_day,
            session_length,
        }
    }

    fn encode(&self, out: &mut Vec<u8>) {
        broadcast use lemma_concat_assoc;

        self.header.encode(out);
        self.weather.encode(out);
        self.track_temperature.encode(out);
        self.air_temperature.encode(out);
        self.total_laps.encode(out);
        self.track_length.encode(out);
        self.session_type.encode(out);
        self.track_id.encode(out);
        self.formula.encode(out);
        self.session_time_left.encode(out);
        self.session_duration.encode(out);
        self.pit_speed_limit.encode(out);
        self.game_paused.encode(out);
        self.is_spectating.encode(out);
        self.spectator_car_index.encode(out);
        self.sli_pro_native_support.encode(out);
        self.num_marshal_zones.encode(out);
        encode_all(self.marshal_zones.as_slice(), out);
        self.safety_car_status.encode(out);
        self.network_game.encode(out);
        self.num_weather_forecast_samples.encode(out);
        encode_all(self.weather_forecast_samples.as_slice(), out);
        self.forecast_accuracy.encode(out);
        self.ai_difficulty.encode(out);
        self.season_link_identifier.encode(out);
        self.weekend_link_identifier.encode(out);
        self.session_link_identifier.encode(out);
        self.pit_stop_window_ideal_lap.encode(out);
        self.pit_stop_window_latest_lap.encode(out);
        self.pit_stop_rejoin_position.encode(out);
        self.steering_assist.encode(out);
        self.braking_assist.encode(out);
        self.gearbox_assist.encode(out);
        self.pit_assist.encode(out);
        self.pit_release_assist.encode(out);
        self.ers_assist.encode(out);
        self.drs_assist.encode(out);
        self.dynamic_racing_line.encode(out);
        self.dynamic_racing_line_type.encode(out);
        self.game_mode.encode(out);
        self.rule_set.encode(out);
        self.time_of_day.encode(out);
        self.session_length.encode(out);
    }
}

} // verus!
