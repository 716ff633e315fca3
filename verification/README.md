# lumi_downloader

The logic of a yt-dlp front end, verified with Verus.

- `src/download.rs`: the yt-dlp command line of a download and the decisions
  taken on each line yt-dlp prints while it runs (events to send, stderr
  lines kept for the error report, the end of the job).
- `src/playlist.rs`: listing a playlist with `--flat-playlist --dump-json`,
  reading the JSON lines into entries, and the fallback that looks a TikTok
  user up by channel id when yt-dlp cannot list the profile.
- `src/search.rs`: where ffmpeg (with ffprobe) and Node.js are looked for
  (`PATH`, nvm, fnm, volta, well-known places), and which of the places
  found is taken.
- `src/version.rs`: the numeric order of version directory names.
- `src/setup.rs`: the installed and latest yt-dlp versions.
- `src/text.rs`: lenient UTF-8 decoding, trimming, lines, search and joining
  on character sequences.

`app/` holds the Tauri commands that run the processes, read the file
system and the network, and send the events.
