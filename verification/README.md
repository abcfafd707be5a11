# duck_race

The rules of a four-lane arcade duck racer, verified with Verus: pick a duck, press GO, four
motor-driven ducks run at speeds that vary mid-race, the first to trip its finish switch wins,
and the machine re-homes itself.

Everything that decides or computes is in `src/`, on plain values, with its contract proved.
`app/` is the firmware around it: pins, tasks, the clock, the random source, the flash chip,
and the floating-point brightness curves of the LED board.

| Module      | What it holds                                                        |
|-------------|----------------------------------------------------------------------|
| `config`    | tuning constants, the LED layout, duty to PWM compare                |
| `clock`     | spans as microseconds                                                |
| `motors`    | the driver lines in the shared-reverse scheme                        |
| `inputs`    | events and their queue, the switch level cache, debouncing, GO       |
| `audio`     | sounds, tracks, and the voice module's command frames                |
| `leds`      | the serpentine chain, what each mode shows, the wiring walk          |
| `calibrate` | baselines, their flash record, TUNE mode                             |
| `race`      | the speed model: segments, stalls, kicks, who wins                   |
| `turn`      | what one turn of a state machine reads and asks for                  |
| `game`      | the machine: nudge, home, attract, select, hold, race, winner        |
| `rules`     | the laws of the game, proved of every turn                           |
| `bringup`   | motor jog, single-lane run, clip check                               |

Time is a `u64` of microseconds. Random numbers, switch levels and events come in as arguments,
so every contract holds for every value of them. What is believed without proof is marked
`external_body`: three calls of `embassy_sync`'s channel, the struct that holds it, and one
conversion of `embassy_time`.
